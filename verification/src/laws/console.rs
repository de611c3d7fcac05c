//! Of the console, the account, the changes and the surface that nothing else walks.

use vstd::prelude::*;

use crate::cluster::names_of;
use crate::json::{Doc, column, doc_u64, items, member, member2, row_named, rows_of, tells, text_of};
use crate::laws::workspaces::{creates, made_one, one_made};
use crate::laws::{answered, came, doc_in, waits_until, went_well};
use crate::outside::base64_text;
use crate::run::{RunV, StateV, admin_at, api_at, joined_path, tmp_at};
use crate::stages::gaps::{console, escaped, identity, pulls, segment, surface, teams};
use crate::stages::git::{oid_in, ssh_at};
use crate::text::{holds, is_white, lines_of, no_slash, parts, starts, trimmed};
use crate::turn::{MoveV, OutcomeV, passed, passed_with};
use crate::wait::WaitV;
use crate::want::{WantV, says};
use crate::wire::{AskV, Cluster, Kind, LogV, NextV, PayloadV, Program, ReplyV, Verb, calling, deleting, getting, patching, posting, posting_nothing};

verus! {

// ── the console ─────────────────────────────────────────────────────────────

/// The volumes are listed exactly where the answer is a list and one of its rows displays a name of the run's own.
pub proof fn law_a_listing_shows_a_volume_of_the_runs(c: RunV, log: LogV)
    ensures
        ({
            let n = console::body_next(c, console::BodyV::VolList, log);
            let rs = log.rs;
            &&& rs.len() == 0 ==> n == NextV::Ask(getting(api_at(c, "/v1/volumes"@), c.probe_jwt))
            &&& n is Pass <==> rs.len() > 0 && went_well(rs[0]) && (items(Some(doc_in(rs[0]))) matches Some(rows) && exists|i: int|
                0 <= i < rows.len() && (text_of(#[trigger] rows[i], "display_name"@) matches Some(t) && starts(t, "run-"@ + c.run_id)))
        }),
{
    if log.rs.len() > 0 && went_well(log.rs[0]) && items(Some(doc_in(log.rs[0]))) is Some {
        let rows = items(Some(doc_in(log.rs[0])))->0;
        let p = "run-"@ + c.run_id;
        if exists|i: int| 0 <= i < rows.len() && (text_of(#[trigger] rows[i], "display_name"@) matches Some(t) && starts(t, p)) {
            let i = choose|i: int| 0 <= i < rows.len() && (text_of(#[trigger] rows[i], "display_name"@) matches Some(t) && starts(t, p));
            assert(console::displays(rows[i], p));
        }
    }
}

/// An admin's stop is one exactly where the environment ran, the stop was taken, and its owner's own read then said stopped.
pub proof fn law_an_admin_stop_is_seen_by_the_owner(c: RunV, env: Seq<char>, log: LogV)
    ensures
        ({
            let n = console::body_next(c, console::BodyV::AdminStop { env }, log);
            let rs = log.rs;
            let url = api_at(c, "/v1/environments/"@ + env);
            &&& n is Pass <==> rs.len() > 2 && came(rs[0]) && went_well(rs[1]) && came(rs[2])
            &&& rs.len() == 0 ==> waits_until(n, url, c.probe_jwt, 120_000, |d: Doc| member(d, "state"@) == Some(Doc::Str("running"@)))
            &&& rs.len() == 1 && came(rs[0]) ==> n == NextV::Ask(
                posting(admin_at(c, "/admin/environments/"@ + env + "/stop"@), c.admin_jwt, Doc::Obj(seq![("note"@, Doc::Str("slo probe"@))])),
            )
            &&& rs.len() == 2 && came(rs[0]) && went_well(rs[1]) ==> waits_until(
                n, url, c.probe_jwt, 45_000, |d: Doc| member(d, "state"@) == Some(Doc::Str("stopped"@)),
            )
        }),
{
}

/// An admin's deletes are good exactly where both objects were made, both deletes were taken, and both objects went from their
/// owner's own reads.
pub proof fn law_an_admin_delete_is_seen_by_the_owner(c: RunV, log: LogV)
    ensures
        ({
            let n = console::body_next(c, console::BodyV::AdminDelete, log);
            let rs = log.rs;
            let ws = one_made(rs[0]);
            let env = one_made(rs[1]);
            let note = PayloadV::Doc(Doc::Obj(seq![("note"@, Doc::Str("slo probe"@))]));
            &&& n is Pass <==> rs.len() > 5 && made_one(rs[0]) && made_one(rs[1]) && went_well(rs[2]) && came(rs[3]) && went_well(rs[4]) && came(
                rs[5],
            )
            &&& rs.len() == 0 ==> creates(n, c, "run-"@ + c.run_id + "-ad-w"@, seq![])
            &&& rs.len() == 2 && n is Ask ==> n == NextV::Ask(calling(Verb::Delete, admin_at(c, "/admin/workspaces/"@ + ws), c.admin_jwt, note))
            &&& rs.len() == 3 && n is Ask ==> n == NextV::Ask(
                AskV::Wait(WaitV::Gone { url: api_at(c, "/v1/workspaces/"@ + ws), token: c.probe_jwt, what: "workspace"@, cap_ms: 60_000 }),
            )
            &&& rs.len() == 4 && n is Ask ==> n == NextV::Ask(
                calling(Verb::Delete, admin_at(c, "/admin/environments/"@ + env), c.admin_jwt, note),
            )
            &&& rs.len() == 5 && n is Ask ==> n == NextV::Ask(
                AskV::Wait(WaitV::Gone { url: api_at(c, "/v1/environments/"@ + env), token: c.probe_jwt, what: "environment"@, cap_ms: 60_000 }),
            )
        }),
{
}

/// The screens render exactly where each was answered well and the owners' one has a row that names the run's own user.
pub proof fn law_the_screens_show_the_runs_own_user(c: RunV, log: LogV)
    ensures
        ({
            let n = console::body_next(c, console::BodyV::Screens, log);
            let rs = log.rs;
            let rows = rows_of(Some(doc_in(rs[0])));
            let who = Some(c.probe_user);
            &&& n is Pass <==> {
                &&& rs.len() > 3 && went_well(rs[0]) && went_well(rs[1]) && went_well(rs[2]) && went_well(rs[3])
                &&& exists|i: int|
                    0 <= i < rows.len() && (text_of(#[trigger] rows[i], "slug"@) == who || text_of(rows[i], "owner"@) == who || text_of(
                        rows[i], "name"@,
                    ) == who)
            }
            &&& rs.len() == 0 ==> n == NextV::Ask(getting(admin_at(c, "/admin/owners"@), c.admin_jwt))
            &&& rs.len() == 1 && n is Ask ==> n == NextV::Ask(getting(admin_at(c, "/admin/owners/"@ + c.probe_user), c.admin_jwt))
            &&& rs.len() == 2 && n is Ask ==> n == NextV::Ask(getting(admin_at(c, "/admin/clusters"@), c.admin_jwt))
            &&& rs.len() == 3 && n is Ask ==> n == NextV::Ask(getting(admin_at(c, "/admin/overview"@), c.admin_jwt))
        }),
{
    let rows = rows_of(Some(doc_in(log.rs[0])));
    let keys = seq!["slug"@, "owner"@, "name"@];
    lemma_tells_three(rows, c.probe_user);
}

proof fn lemma_tells_three(rows: Seq<Doc>, who: Seq<char>)
    ensures
        console::some_tells(rows, seq!["slug"@, "owner"@, "name"@], who) <==> exists|i: int|
            0 <= i < rows.len() && (text_of(#[trigger] rows[i], "slug"@) == Some(who) || text_of(rows[i], "owner"@) == Some(who) || text_of(
                rows[i], "name"@,
            ) == Some(who)),
        console::some_tells(rows, seq!["id"@, "name"@], who) <==> exists|i: int|
            0 <= i < rows.len() && (text_of(#[trigger] rows[i], "id"@) == Some(who) || text_of(rows[i], "name"@) == Some(who)),
{
    let keys = seq!["slug"@, "owner"@, "name"@];
    let two = seq!["id"@, "name"@];
    assert forall|i: int| 0 <= i < rows.len() implies #[trigger] console::row_tells(rows[i], keys, who) == (text_of(rows[i], "slug"@) == Some(who)
        || text_of(rows[i], "owner"@) == Some(who) || text_of(rows[i], "name"@) == Some(who)) by {
        assert(keys[0] == "slug"@ && keys[1] == "owner"@ && keys[2] == "name"@);
        assert(text_of(rows[i], keys[0]) == text_of(rows[i], "slug"@));
        assert(text_of(rows[i], keys[1]) == text_of(rows[i], "owner"@));
        assert(text_of(rows[i], keys[2]) == text_of(rows[i], "name"@));
    }
    assert forall|i: int| 0 <= i < rows.len() implies #[trigger] console::row_tells(rows[i], two, who) == (text_of(rows[i], "id"@) == Some(who)
        || text_of(rows[i], "name"@) == Some(who)) by {
        assert(two[0] == "id"@ && two[1] == "name"@);
        assert(text_of(rows[i], two[0]) == text_of(rows[i], "id"@));
        assert(text_of(rows[i], two[1]) == text_of(rows[i], "name"@));
    }
    if exists|i: int|
        0 <= i < rows.len() && (text_of(#[trigger] rows[i], "slug"@) == Some(who) || text_of(rows[i], "owner"@) == Some(who) || text_of(
            rows[i], "name"@,
        ) == Some(who)) {
        let i = choose|i: int|
            0 <= i < rows.len() && (text_of(#[trigger] rows[i], "slug"@) == Some(who) || text_of(rows[i], "owner"@) == Some(who) || text_of(
                rows[i], "name"@,
            ) == Some(who));
        assert(console::row_tells(rows[i], keys, who));
    }
    if exists|i: int| 0 <= i < rows.len() && (text_of(#[trigger] rows[i], "id"@) == Some(who) || text_of(rows[i], "name"@) == Some(who)) {
        let i = choose|i: int| 0 <= i < rows.len() && (text_of(#[trigger] rows[i], "id"@) == Some(who) || text_of(rows[i], "name"@) == Some(who));
        assert(console::row_tells(rows[i], two, who));
    }
}

/// What is missing of the known is just what is known and not among the named.
pub proof fn law_the_missing_are_known_and_not_named(known: Seq<Seq<char>>, named: Seq<Seq<char>>, t: Seq<char>)
    ensures
        console::missing_from(known, named).contains(t) <==> known.contains(t) && !named.contains(t),
        console::missing_from(known, named).len() == 0 <==> forall|i: int| 0 <= i < known.len() ==> named.contains(#[trigger] known[i]),
    decreases known.len(),
{
    if known.len() > 0 {
        let before = known.drop_last();
        law_the_missing_are_known_and_not_named(before, named, t);
        let m = console::missing_from(before, named);
        let all = console::missing_from(known, named);
        assert(known =~= before.push(known.last()));
        assert(known.contains(t) <==> before.contains(t) || known.last() == t) by {
            if known.contains(t) {
                let i = choose|i: int| 0 <= i < known.len() && known[i] == t;
                if i < before.len() {
                    assert(before[i] == t);
                }
            }
            if before.contains(t) {
                let i = choose|i: int| 0 <= i < before.len() && before[i] == t;
                assert(known[i] == t);
            }
            assert(known[known.len() - 1] == known.last());
        }
        if !named.contains(known.last()) {
            assert(all == m.push(known.last()));
            assert(all.contains(t) <==> m.contains(t) || known.last() == t) by {
                if all.contains(t) {
                    let i = choose|i: int| 0 <= i < all.len() && all[i] == t;
                    if i < m.len() {
                        assert(m[i] == t);
                    }
                }
                if m.contains(t) {
                    let i = choose|i: int| 0 <= i < m.len() && m[i] == t;
                    assert(all[i] == t);
                }
                assert(all[all.len() - 1] == known.last());
            }
            assert(!named.contains(known[known.len() - 1]));
        } else {
            if forall|i: int| 0 <= i < before.len() ==> named.contains(#[trigger] before[i]) {
                assert forall|i: int| 0 <= i < known.len() implies named.contains(#[trigger] known[i]) by {
                    if i < before.len() {
                        assert(before[i] == known[i]);
                    }
                }
            }
            if forall|i: int| 0 <= i < known.len() ==> named.contains(#[trigger] known[i]) {
                assert forall|i: int| 0 <= i < before.len() implies named.contains(#[trigger] before[i]) by {
                    assert(before[i] == known[i]);
                }
            }
        }
    }
}

/// The workloads can be rolled exactly where the list is not empty, has every workload that is known, and has each with both
/// of its sizes.
pub proof fn law_every_known_workload_is_listed_with_its_sizes(c: RunV, log: LogV)
    ensures
        ({
            let n = console::body_next(c, console::BodyV::Workloads, log);
            let rs = log.rs;
            let d = doc_in(rs[0]);
            &&& rs.len() == 0 ==> n == NextV::Ask(getting(admin_at(c, "/admin/workloads"@), c.admin_jwt))
            &&& n is Pass <==> rs.len() > 0 && went_well(rs[0]) && (listed_workloads(d) matches Some(rows) && {
                &&& rows.len() > 0
                &&& forall|k: int| 0 <= k < c.known_workloads.len() ==> column(rows, "name"@).contains(#[trigger] c.known_workloads[k])
                &&& forall|i: int| 0 <= i < rows.len() ==> member(#[trigger] rows[i], "ready"@) is Some && member(rows[i], "desired"@) is Some
            })
        }),
{
    if log.rs.len() > 0 && went_well(log.rs[0]) && listed_workloads(doc_in(log.rs[0])) is Some {
        let rows = listed_workloads(doc_in(log.rs[0]))->0;
        law_the_missing_are_known_and_not_named(c.known_workloads, column(rows, "name"@), seq![]);
        lemma_unsized(rows);
    }
}

/// The list under `workloads`, or the answer itself.
pub open spec fn listed_workloads(d: Doc) -> Option<Seq<Doc>> {
    match items(member(d, "workloads"@)) {
        Some(rows) => Some(rows),
        None => items(Some(d)),
    }
}

proof fn lemma_unsized(rows: Seq<Doc>)
    ensures
        console::unsized_row(rows) is None <==> forall|i: int|
            0 <= i < rows.len() ==> member(#[trigger] rows[i], "ready"@) is Some && member(rows[i], "desired"@) is Some,
    decreases rows.len(),
{
    if rows.len() > 0 {
        let rest = rows.skip(1);
        lemma_unsized(rest);
        if console::unsized_row(rows) is None {
            assert forall|i: int| 0 <= i < rows.len() implies member(#[trigger] rows[i], "ready"@) is Some && member(rows[i], "desired"@) is Some by {
                if i > 0 {
                    assert(rest[i - 1] == rows[i]);
                }
            }
        }
        if forall|i: int| 0 <= i < rows.len() ==> member(#[trigger] rows[i], "ready"@) is Some && member(rows[i], "desired"@) is Some {
            assert(member(rows[0], "ready"@) is Some);
            assert forall|i: int| 0 <= i < rest.len() implies member(#[trigger] rest[i], "ready"@) is Some && member(rest[i], "desired"@) is Some by {
                assert(rest[i] == rows[i + 1]);
            }
        }
    }
}

/// An export is a table exactly where it was answered well and has two lines that hold something, with a comma in the first
/// of them.
pub proof fn law_an_export_has_a_header_and_a_row(c: RunV, log: LogV)
    ensures
        ({
            let n = console::body_next(c, console::BodyV::AuditExport, log);
            let rs = log.rs;
            &&& rs.len() == 0 ==> n == NextV::Ask(getting(admin_at(c, "/admin/audit.csv?limit=50"@), c.admin_jwt))
            &&& n is Pass <==> rs.len() > 0 && went_well(rs[0]) && (rs[0] matches ReplyV::Answer { text, .. } && console::full_lines(lines_of(text)).len()
                > 1 && holds(console::full_lines(lines_of(text))[0], ","@))
        }),
{
}

/// The full lines are those that hold more than white space, in order.
pub proof fn law_a_full_line_is_kept(lines: Seq<Seq<char>>, last: Seq<char>)
    ensures
        console::full_lines(lines.push(last)) == if trimmed(last).len() > 0 { console::full_lines(lines).push(last) } else {
            console::full_lines(lines)
        },
        console::full_lines(Seq::<Seq<char>>::empty()).len() == 0,
{
    assert(lines.push(last).drop_last() =~= lines);
}

/// Requests are decided exactly where the access that was approved let its asker into the team, and the other, once denied,
/// reads back to its asker as denied with the very reason; the team is taken back.
pub proof fn law_a_decision_reaches_its_asker(c: RunV, slug: Seq<char>, log: LogV)
    ensures
        ({
            let n = console::body_next(c, console::BodyV::DecideKinds { slug }, log);
            let rs = log.rs;
            let back = doc_in(rs[6]);
            &&& n is Pass <==> {
                &&& rs.len() > 6 && log.us.len() > 0 && !log.cut
                &&& went_well(rs[0]) && made_one(rs[1]) && went_well(rs[2]) && came(rs[3]) && made_one(rs[4]) && went_well(rs[5]) && went_well(
                    rs[6],
                )
                &&& text_of(back, "state"@) == Some("denied"@) && tells(back, "slo probe denied "@ + c.run_id)
                &&& went_well(log.us[0])
            }
            &&& rs.len() == 1 && n is Ask ==> n == NextV::Ask(
                posting(
                    api_at(c, "/v1/requests"@), c.other_jwt,
                    Doc::Obj(seq![
                        ("kind"@, Doc::Str("access"@)),
                        ("reason"@, Doc::Str("run-"@ + c.run_id + " slo probe access"@)),
                        ("access"@, Doc::Obj(seq![("team"@, Doc::Str(slug)), ("role"@, Doc::Str("member"@))])),
                    ]),
                ),
            )
            &&& rs.len() == 2 && n is Ask ==> n == NextV::Ask(
                posting(
                    admin_at(c, "/admin/requests/"@ + one_made(rs[1]) + "/approve"@), c.admin_jwt, Doc::Obj(seq![("note"@, Doc::Str("slo probe"@))]),
                ),
            )
            &&& rs.len() == 3 && n is Ask ==> waits_until(
                n, api_at(c, "/v1/teams/"@ + slug), c.other_jwt, 20_000, |d: Doc| member(d, "slug"@) == Some(Doc::Str(slug)),
            )
            &&& rs.len() == 5 && n is Ask ==> n == NextV::Ask(
                posting(
                    admin_at(c, "/admin/requests/"@ + one_made(rs[4]) + "/deny"@), c.admin_jwt,
                    Doc::Obj(seq![("note"@, Doc::Str("slo probe denied "@ + c.run_id))]),
                ),
            )
            &&& rs.len() == 6 && n is Ask ==> n == NextV::Ask(getting(api_at(c, "/v1/requests/"@ + one_made(rs[4])), c.other_jwt))
            &&& n matches NextV::Undo(u) ==> u == deleting(api_at(c, "/v1/teams/"@ + slug), c.probe_jwt)
        }),
{
    reveal_strlit("denied");
    assert("denied"@.len() == 6);
}

/// The retired queue is united exactly where it and the new one answer lists and the migration between them went well; and a
/// region is there where it is on the list and answers its own status.
pub proof fn law_a_queue_and_a_region_answer_lists(c: RunV, log: LogV)
    ensures
        ({
            let n = console::body_next(c, console::BodyV::LegacyUnion, log);
            let rs = log.rs;
            &&& n is Pass <==> {
                &&& rs.len() > 2 && went_well(rs[0]) && went_well(rs[1]) && went_well(rs[2])
                &&& items(Some(doc_in(rs[0]))) is Some && items(Some(doc_in(rs[2]))) is Some
            }
            &&& rs.len() == 0 ==> n == NextV::Ask(getting(admin_at(c, "/admin/quota-requests"@), c.admin_jwt))
            &&& rs.len() == 1 && n is Ask ==> n == NextV::Ask(
                posting(admin_at(c, "/admin/requests/migrate"@), c.admin_jwt, Doc::Obj(seq![("note"@, Doc::Str("slo probe"@))])),
            )
            &&& rs.len() == 2 && n is Ask ==> n == NextV::Ask(getting(admin_at(c, "/admin/requests"@), c.admin_jwt))
        }),
        ({
            let n = console::body_next(c, console::BodyV::RegionStatus, log);
            let rs = log.rs;
            let rows = rows_of(Some(doc_in(rs[0])));
            &&& n is Pass <==> {
                &&& rs.len() > 1 && went_well(rs[0]) && went_well(rs[1])
                &&& exists|i: int|
                    0 <= i < rows.len() && (text_of(#[trigger] rows[i], "id"@) == Some(c.region) || text_of(rows[i], "name"@) == Some(c.region))
            }
            &&& rs.len() == 0 ==> n == NextV::Ask(getting(api_at(c, "/v1/regions"@), c.probe_jwt))
            &&& rs.len() == 1 && n is Ask ==> n == NextV::Ask(getting(admin_at(c, "/admin/clusters/"@ + c.region), c.admin_jwt))
        }),
{
    lemma_tells_three(rows_of(Some(doc_in(log.rs[0]))), c.region);
}

// ── the account ─────────────────────────────────────────────────────────────

pub proof fn lemma_two_refusals()
    ensures
        forall|s: u16| seq![401u16, 403u16].contains(s) <==> s == 401 || s == 403,
        forall|s: u16| seq![401u16, 403u16, 404u16, 410u16].contains(s) <==> s == 401 || s == 403 || s == 404 || s == 410,
{
    let a = seq![401u16, 403u16];
    assert(a[0] == 401 && a[1] == 403);
    let b = seq![401u16, 403u16, 404u16, 410u16];
    assert(b[0] == 401 && b[1] == 403 && b[2] == 404 && b[3] == 410);
}

/// A handle is claimed once: another claim is turned down because one is set, and a malformed one for another reason; and a
/// session is refused the write that would mint a session.
pub proof fn law_a_handle_is_claimed_once(c: RunV, log: LogV)
    ensures
        ({
            let n = identity::body_next(c, identity::BodyV::Username, log);
            let rs = log.rs;
            &&& n is Pass <==> {
                &&& rs.len() > 1 && answered(rs[0], 400) && answered(rs[1], 400)
                &&& rs[0] matches ReplyV::Answer { text, .. } && holds(text, "already set"@)
                &&& rs[1] matches ReplyV::Answer { text, .. } && !holds(text, "already set"@)
            }
            &&& rs.len() == 0 ==> n == NextV::Ask(
                posting(api_at(c, "/v1/users/username"@), c.probe_jwt, Doc::Obj(seq![("username"@, Doc::Str(c.probe_user + "2"@))])),
            )
            &&& rs.len() == 1 && n is Ask ==> n == NextV::Ask(
                posting(api_at(c, "/v1/users/username"@), c.probe_jwt, Doc::Obj(seq![("username"@, Doc::Str("-Not A Handle-"@))])),
            )
        }),
        ({
            let n = identity::body_next(c, identity::BodyV::ProfileUpsert, log);
            &&& n is Pass <==> log.rs.len() > 0 && (answered(log.rs[0], 401) || answered(log.rs[0], 403))
            &&& log.rs.len() == 0 ==> n == NextV::Ask(
                posting(
                    api_at(c, "/v1/users"@), c.probe_jwt,
                    Doc::Obj(seq![("email"@, Doc::Str(c.probe_email)), ("name"@, Doc::Str("kloudlite slo probe"@))]),
                ),
            )
        }),
{
    lemma_two_refusals();
}

/// A login was begun: its code and its poll are both there, and not empty.
pub open spec fn begun(r: ReplyV) -> bool {
    went_well(r) && (text_of(doc_in(r), "code"@) matches Some(a) && a.len() > 0) && (text_of(doc_in(r), "poll"@) matches Some(b) && b.len() > 0)
}

/// A login was collected: it has a token.
pub open spec fn collected(r: ReplyV) -> bool {
    went_well(r) && (text_of(doc_in(r), "token"@) matches Some(t) && t.len() > 0)
}

/// The row of a login that is listed under the device's own name, with an id.
pub open spec fn listed_login(r: ReplyV, device: Seq<char>) -> Option<Seq<char>> {
    match row_named(rows_of(Some(doc_in(r))), "name"@, device) {
        Some(row) => text_of(row, "id"@),
        None => None,
    }
}

/// A login of the CLI's is honoured until it is revoked and refused from then on: exactly where it was walked to its end, is
/// listed by its name and by its id, answers with its own token before the revocation, and is refused after it.
pub proof fn law_a_revoked_login_is_refused(c: RunV, device: Seq<char>, log: LogV)
    ensures
        ({
            let n = identity::body_next(c, identity::BodyV::CliTokens { device }, log);
            let rs = log.rs;
            let token = text_of(doc_in(rs[2]), "token"@)->0;
            let id = listed_login(rs[3], device);
            &&& n is Pass <==> {
                &&& rs.len() > 7 && begun(rs[0]) && went_well(rs[1]) && collected(rs[2])
                &&& went_well(rs[3]) && id is Some && went_well(rs[4])
                &&& went_well(rs[5]) && row_named(rows_of(Some(doc_in(rs[5]))), "id"@, id->0) is Some
                &&& went_well(rs[6])
                &&& answered(rs[7], 401) || answered(rs[7], 403)
            }
            &&& rs.len() == 1 && begun(rs[0]) ==> n == NextV::Ask(
                posting(api_at(c, "/v1/cli/approve"@), c.probe_jwt, Doc::Obj(seq![("code"@, Doc::Str(text_of(doc_in(rs[0]), "code"@)->0))])),
            )
            &&& rs.len() == 2 && n is Ask ==> n == NextV::Ask(
                getting(api_at(c, "/v1/cli/token?poll="@ + text_of(doc_in(rs[0]), "poll"@)->0), ""@),
            )
            &&& (rs.len() == 4 || rs.len() == 7) && n is Ask ==> n == NextV::Ask(getting(api_at(c, "/v1/cli/tokens"@), token))
            &&& (rs.len() == 3 || rs.len() == 5) && n is Ask ==> n == NextV::Ask(getting(api_at(c, "/v1/cli/tokens"@), c.probe_jwt))
            &&& rs.len() == 6 && n is Ask ==> n == NextV::Ask(deleting(api_at(c, "/v1/cli/tokens/"@ + id->0), c.probe_jwt))
        }),
{
    lemma_two_refusals();
}

/// A word stands in a text and no longer one does there.
pub open spec fn has_word(s: Seq<char>, p: Seq<char>) -> bool {
    exists|i: int| #![trigger s.subrange(i, i + p.len())] 0 <= i && i + p.len() <= s.len() && s.subrange(i, i + p.len()) == p && (i + p.len() == s.len() || is_white(s[i + p.len()]))
}

/// A host block is of use exactly where the login was had, the program that writes it did well, and what it wrote has both the
/// workspace's own name and the proxy to it; the login is revoked whatever became of that.
pub proof fn law_a_host_block_names_its_workspace(c: RunV, ws: Seq<char>, device: Seq<char>, log: LogV)
    ensures
        ({
            let n = identity::body_next(c, identity::BodyV::SshConfig { ws, device }, log);
            let rs = log.rs;
            let id = listed_login(rs[3], device);
            &&& n is Pass <==> {
                &&& rs.len() > 7 && log.us.len() > 0 && !log.cut
                &&& begun(rs[0]) && went_well(rs[1]) && collected(rs[2]) && went_well(rs[3]) && id is Some
                &&& rs[4] is Said && rs[5] is Said && rs[6] is Said
                &&& rs[7] matches ReplyV::Said(block) && has_word(block, "HostName "@ + ws) && has_word(block, "ProxyCommand kl-connect ws proxy "@ + ws)
                &&& went_well(log.us[0])
            }
            &&& rs.len() == 6 && n is Ask ==> (n matches NextV::Ask(AskV::Tool { program, argv, .. }) && program == Program::Kl && argv
                == seq!["ws"@, "ssh-config"@])
            &&& rs.len() == 7 && n is Ask ==> n == NextV::Ask(
                AskV::ReadText { path: joined_path(tmp_at(c, "klhome"@), ".ssh/kloudlite_config"@) },
            )
            &&& n matches NextV::Undo(u) ==> u == deleting(api_at(c, "/v1/cli/tokens/"@ + id->0), c.probe_jwt)
        }),
{
    assert forall|s: Seq<char>, p: Seq<char>| #[trigger] has_word(s, p) == identity::holds_whole(s, p) by {
        if has_word(s, p) {
            let i = choose|i: int| #![trigger s.subrange(i, i + p.len())] 0 <= i && i + p.len() <= s.len() && s.subrange(i, i + p.len()) == p && (i + p.len() == s.len() || is_white(
                s[i + p.len()],
            ));
            assert(identity::stands_whole_at(s, p, i));
        }
        if identity::holds_whole(s, p) {
            let i = choose|i: int| #[trigger] identity::stands_whole_at(s, p, i);
            assert(s.subrange(i, i + p.len()) == p);
        }
    }
}

/// A key that a person adds works, and stops working once it is taken away: exactly where it was registered, a clone with it
/// then worked, its removal was taken, and a clone with it was then denied.
pub proof fn law_a_removed_key_stops_working(c: RunV, repo: Seq<char>, public: Seq<char>, log: LogV)
    ensures
        ({
            let n = identity::body_next(c, identity::BodyV::KeyLifecycle { repo, public }, log);
            let rs = log.rs;
            let id = text_of(doc_in(rs[0]), "_id"@);
            &&& n is Pass <==> {
                &&& rs.len() > 2 && log.us.len() > 0 && !log.cut
                &&& went_well(rs[0]) && id is Some && came(rs[1]) && went_well(log.us[0]) && came(rs[2])
            }
            &&& rs.len() == 0 ==> n == NextV::Ask(
                posting(
                    api_at(c, "/v1/keys"@), c.probe_jwt,
                    Doc::Obj(seq![("name"@, Doc::Str("run-"@ + c.run_id + "-lifecycle"@)), ("key"@, Doc::Str(public))]),
                ),
            )
            &&& rs.len() == 1 && n is Ask ==> (n matches NextV::Ask(AskV::Wait(WaitV::Cloned { argv, .. })) && argv == seq![
                "ls-remote"@,
                ssh_at(c, repo),
            ])
            &&& rs.len() == 2 && n is Ask ==> (n matches NextV::Ask(AskV::Wait(WaitV::Denied { argv, cap_ms, .. })) && argv == seq![
                "ls-remote"@,
                ssh_at(c, repo),
            ] && cap_ms == 10_000)
            &&& n matches NextV::Undo(u) ==> u == deleting(api_at(c, "/v1/keys/"@ + segment(id->0)), c.probe_jwt)
        }),
        ({
            let n = identity::body_next(c, identity::BodyV::PublicKey, log);
            &&& n is Pass <==> log.rs.len() > 0 && log.rs[0] is Said
            &&& log.rs.len() > 0 ==> (log.rs[0] matches ReplyV::Said(t) ==> identity::body_found(identity::BodyV::PublicKey, log) == Some(trimmed(t)))
        }),
{
}

/// An id is escaped where its characters would split a path or be read as another.
pub proof fn law_a_segment_is_escaped_by_character(id: Seq<char>, ch: char)
    ensures
        segment(id.push(ch)) == segment(id) + (if ch == '/' { "%2F"@ } else if ch == '+' { "%2B"@ } else if ch == '%' { "%25"@ } else { seq![ch] }),
        segment(Seq::<char>::empty()) == Seq::<char>::empty(),
{
    assert(id.push(ch).drop_last() =~= id);
}

/// Each step of the account's and the console's is about the run's own.
pub proof fn law_an_account_step_is_the_runs_own(c: RunV, s: StateV, os: Seq<OutcomeV>)
    ensures
        identity::cli_tokens_move(c, os) matches MoveV::Step { id, body, .. } ==> id == "id.cli.tokens"@ && body == (identity::BodyV::CliTokens {
            device: "run-"@ + c.run_id + "-rev"@,
        }),
        identity::sshconfig_move(c, s, os) matches MoveV::Step { id, body, .. } ==> id == "id.cli.sshconfig"@ && (body
            matches identity::BodyV::SshConfig { ws, device } && device == "run-"@ + c.run_id + "-cli"@ && (s.ux_workspace == Some(ws) || (
        s.ux_workspace is None && s.workspace == Some(ws)))),
        identity::key_lifecycle_move(c, s, os) matches MoveV::Step { id, body, .. } ==> id == "key.ssh.lifecycle"@ && passed(os[0]) && passed(
            os[1],
        ) && (body matches identity::BodyV::KeyLifecycle { repo, public } && s.repo == Some(repo) && passed_with(os[2]) == Some(public)),
        identity::username_move(os) matches MoveV::Step { id, body, .. } ==> id == "id.username"@ && body == identity::BodyV::Username,
        identity::profile_upsert_move(os) matches MoveV::Step { id, body, .. } ==> id == "id.profile.upsert"@ && body
            == identity::BodyV::ProfileUpsert,
        console::vol_list_move(os) matches MoveV::Step { id, body, .. } ==> id == "vol.list"@ && body == console::BodyV::VolList,
        console::admin_stop_environment_move(s, os) matches MoveV::Step { id, body, .. } ==> id == "admin.stop.environment"@ && (body
            matches console::BodyV::AdminStop { env } && s.env_multi == Some(env)),
        console::admin_delete_move(os) matches MoveV::Step { id, body, .. } ==> id == "admin.delete.workload"@ && body
            == console::BodyV::AdminDelete,
        console::screens_move(os) matches MoveV::Step { id, body, .. } ==> id == "admin.screens"@ && body == console::BodyV::Screens,
        console::workloads_move(os) matches MoveV::Step { id, body, .. } ==> id == "admin.workloads.read"@ && body == console::BodyV::Workloads,
        console::audit_export_move(os) matches MoveV::Step { id, body, .. } ==> id == "audit.export"@ && body == console::BodyV::AuditExport,
        console::decide_kinds_move(c, os) matches MoveV::Step { id, body, .. } ==> id == "req.decide.kinds"@ && body == (
        console::BodyV::DecideKinds { slug: "run-"@ + c.run_id + "-rq"@ }),
        console::legacy_union_move(os) matches MoveV::Step { id, body, .. } ==> id == "req.legacy.union"@ && body == console::BodyV::LegacyUnion,
        console::region_status_move(os) matches MoveV::Step { id, body, .. } ==> id == "region.status"@ && body == console::BodyV::RegionStatus,
{
}

// ── the changes ─────────────────────────────────────────────────────────────

/// A description is saved exactly where the save was taken and the repo reads it back.
pub proof fn law_a_description_reads_back(c: RunV, name: Seq<char>, log: LogV)
    ensures
        ({
            let n = pulls::body_next(c, pulls::BodyV::Description { name }, log);
            let rs = log.rs;
            let url = api_at(c, "/v1/repos/"@ + c.probe_user + "/"@ + name);
            let said = "slo probe "@ + c.run_id;
            &&& n is Pass <==> rs.len() > 1 && went_well(rs[0]) && went_well(rs[1]) && text_of(doc_in(rs[1]), "description"@) == Some(said)
            &&& rs.len() == 0 ==> n == NextV::Ask(patching(url, c.probe_jwt, Doc::Obj(seq![("description"@, Doc::Str(said))])))
            &&& rs.len() == 1 && n is Ask ==> n == NextV::Ask(getting(url, c.probe_jwt))
        }),
{
}

/// A change was opened and has a number.
pub open spec fn opened(r: ReplyV) -> bool {
    went_well(r) && crate::json::doc_i64(member(doc_in(r), "number"@)) is Some
}

/// One strategy is good exactly where the branch was made, its change was opened and merged by that strategy, and its own file
/// then stood on the base.
pub proof fn law_a_strategy_lands_its_own_file(c: RunV, name: Seq<char>, strategy: Seq<char>, rs: Seq<ReplyV>)
    ensures
        ({
            let n = pulls::one_strategy_next(c, name, strategy, rs);
            let repo = "/v1/repos/"@ + c.probe_user + "/"@ + name;
            let number = crate::text::dec_int(crate::json::doc_i64(member(doc_in(rs[1]), "number"@))->0);
            let branch = "run-"@ + c.run_id + "-"@ + strategy;
            let text = c.run_id + " "@ + strategy + "\n"@;
            &&& n is Pass <==> rs.len() > 4 && went_well(rs[0]) && opened(rs[1]) && went_well(rs[2]) && came(rs[3]) && came(rs[4])
            &&& rs.len() == 0 ==> n == NextV::Ask(
                posting(
                    api_at(c, repo + "/commits"@), c.probe_jwt,
                    Doc::Obj(seq![
                        ("branch"@, Doc::Str("main"@)),
                        ("newBranch"@, Doc::Str(branch)),
                        ("message"@, Doc::Str("slo "@ + strategy + " "@ + c.run_id)),
                        (
                            "changes"@,
                            Doc::Arr(seq![
                                Doc::Obj(seq![
                                    ("path"@, Doc::Str(strategy + ".txt"@)),
                                    ("contentBase64"@, Doc::Str(base64_text(text))),
                                ]),
                            ]),
                        ),
                    ]),
                ),
            )
            &&& rs.len() == 1 && n is Ask ==> n == NextV::Ask(
                posting(
                    api_at(c, repo + "/pulls"@), c.probe_jwt,
                    Doc::Obj(seq![
                        ("title"@, Doc::Str("slo "@ + strategy + " "@ + c.run_id)),
                        ("base"@, Doc::Str("main"@)),
                        ("head"@, Doc::Str(branch)),
                    ]),
                ),
            )
            &&& rs.len() == 2 && n is Ask ==> n == NextV::Ask(
                posting(api_at(c, repo + "/pulls/"@ + number + "/merge?strategy="@ + strategy), c.probe_jwt, Doc::Null),
            )
            &&& rs.len() == 3 && n is Ask ==> waits_until(
                n, api_at(c, repo + "/pulls/"@ + number), c.probe_jwt, 60_000, |d: Doc| member(d, "state"@) == Some(Doc::Str("merged"@)),
            )
            &&& rs.len() == 4 && n is Ask ==> (n matches NextV::Ask(AskV::Wait(WaitV::Landed { refs, blobs, path, text: t, .. })) && refs
                == api_at(c, "/api/"@ + c.probe_user + "/"@ + name + "/refs"@) && blobs == api_at(
                c, "/api/"@ + c.probe_user + "/"@ + name + "/blob"@,
            ) && path == strategy + ".txt"@ && t == text)
        }),
{
}

/// The strategies are all four, in order, each on five replies of its own.
pub proof fn law_all_four_strategies_are_walked(c: RunV, name: Seq<char>, log: LogV)
    ensures
        ({
            let n = pulls::body_next(c, pulls::BodyV::MergeStrategies { name }, log);
            let rs = log.rs;
            let one = |k: int, s: Seq<char>| pulls::one_strategy_next(c, name, s, rs.skip(5 * k));
            &&& n is Pass <==> one(0, "merge"@) is Pass && one(1, "squash"@) is Pass && one(2, "rebase"@) is Pass && one(3, "fast-forward"@) is Pass
            &&& one(0, "merge"@) is Ask ==> n == one(0, "merge"@)
            &&& one(0, "merge"@) is Pass && one(1, "squash"@) is Ask ==> n == one(1, "squash"@)
            &&& one(0, "merge"@) is Pass && one(1, "squash"@) is Pass && one(2, "rebase"@) is Ask ==> n == one(2, "rebase"@)
            &&& one(0, "merge"@) is Fail ==> n is Fail
        }),
{
    reveal_with_fuel(pulls::strategies_next, 5);
}

/// Mergeability is judged right exactly where the first change of two on one path was called clean and merged, and the other,
/// opened only then, was called dirty.
pub proof fn law_the_second_of_two_changes_is_dirty(c: RunV, name: Seq<char>, log: LogV)
    ensures
        ({
            let n = pulls::body_next(c, pulls::BodyV::Mergeability { name }, log);
            let rs = log.rs;
            let repo = "/v1/repos/"@ + c.probe_user + "/"@ + name;
            let clean = crate::text::dec_int(crate::json::doc_i64(member(doc_in(rs[2]), "number"@))->0);
            let dirty = crate::text::dec_int(crate::json::doc_i64(member(doc_in(rs[6]), "number"@))->0);
            &&& n is Pass <==> {
                &&& rs.len() > 7 && went_well(rs[0]) && went_well(rs[1]) && opened(rs[2])
                &&& went_well(rs[3]) && crate::want::judged(doc_in(rs[3])) == "clean"@
                &&& went_well(rs[4]) && came(rs[5]) && opened(rs[6])
                &&& went_well(rs[7]) && crate::want::judged(doc_in(rs[7])) == "dirty"@
            }
            &&& rs.len() == 3 && n is Ask ==> waits_until(
                n, api_at(c, repo + "/pulls/"@ + clean), c.probe_jwt, 25_000, |d: Doc| says(WantV::Judged, d),
            )
            &&& rs.len() == 4 && n is Ask ==> n == NextV::Ask(
                posting(api_at(c, repo + "/pulls/"@ + clean + "/merge?strategy=fast-forward"@), c.probe_jwt, Doc::Null),
            )
            &&& rs.len() == 5 && n is Ask ==> waits_until(
                n, api_at(c, repo + "/pulls/"@ + clean), c.probe_jwt, 60_000, |d: Doc| member(d, "state"@) == Some(Doc::Str("merged"@)),
            )
            &&& rs.len() == 7 && n is Ask ==> waits_until(
                n, api_at(c, repo + "/pulls/"@ + dirty), c.probe_jwt, 25_000, |d: Doc| says(WantV::Judged, d),
            )
        }),
        ({
            let n = pulls::body_next(c, pulls::BodyV::Mergeability { name }, log);
            let repo = "/v1/repos/"@ + c.probe_user + "/"@ + name;
            let change = |branch: Seq<char>, what: Seq<char>, text: Seq<char>| NextV::Ask(
                posting(
                    api_at(c, repo + "/commits"@), c.probe_jwt,
                    Doc::Obj(seq![
                        ("branch"@, Doc::Str("main"@)),
                        ("newBranch"@, Doc::Str(branch)),
                        ("message"@, Doc::Str(what + c.run_id)),
                        (
                            "changes"@,
                            Doc::Arr(seq![
                                Doc::Obj(seq![
                                    ("path"@, Doc::Str("conflict-"@ + c.run_id + ".txt"@)),
                                    ("contentBase64"@, Doc::Str(base64_text(text))),
                                ]),
                            ]),
                        ),
                    ]),
                ),
            );
            &&& log.rs.len() == 0 ==> n == change("run-"@ + c.run_id + "-clean"@, "slo clean "@, "one\n"@)
            &&& log.rs.len() == 1 && n is Ask ==> n == change("run-"@ + c.run_id + "-dirty"@, "slo dirty "@, "two\n"@)
        }),
{
}

// ── the surface ─────────────────────────────────────────────────────────────

/// A namespace is bounded exactly where its quota says just what the owner's says, and both are kept track of.
pub proof fn law_a_namespace_is_bounded_as_its_owner_is(c: RunV, log: LogV)
    ensures
        ({
            let n = surface::body_next(c, surface::BodyV::QuotaNamespace, log);
            let rs = log.rs;
            let cpu = doc_u64(member2(doc_in(rs[0]), "limit"@, "cpu"@));
            let mem = doc_u64(member2(doc_in(rs[0]), "limit"@, "memoryGb"@));
            let hard = member2(doc_in(rs[1]), "status"@, "hard"@);
            let used = member2(doc_in(rs[1]), "status"@, "used"@);
            let text = |key: Seq<char>| match text_of(hard->0, key) { Some(t) => t, None => seq![] };
            &&& n is Pass <==> {
                &&& rs.len() > 1 && went_well(rs[0]) && cpu is Some && mem is Some && went_well(rs[1]) && hard is Some && used is Some
                &&& crate::quantity::millis_of(text("limits.cpu"@)) == crate::quantity::millis_of(crate::text::dec(cpu->0 as u64 as nat))
                &&& crate::quantity::bytes_of(text("limits.memory"@)) == crate::quantity::bytes_of(crate::text::dec(mem->0 as u64 as nat) + "Gi"@)
                &&& member(used->0, "limits.cpu"@) is Some && member(used->0, "limits.memory"@) is Some
            }
            &&& rs.len() == 0 ==> n == NextV::Ask(getting(api_at(c, "/v1/quota"@), c.probe_jwt))
            &&& rs.len() == 1 && n is Ask ==> n == NextV::Ask(
                AskV::Read { cluster: Cluster::Fleet, kind: Kind::ResourceQuota, ns: c.own_ns, name: "owner-quota"@ },
            )
        }),
{
}

/// A namespace is fenced exactly where each of the five policies is among those that are listed in it.
pub proof fn law_a_namespace_has_all_its_policies(c: RunV, log: LogV)
    ensures
        ({
            let n = surface::body_next(c, surface::BodyV::ServicesPolicies, log);
            let rs = log.rs;
            let names = names_of(rows_of(Some(doc_in(rs[0]))));
            &&& n is Pass <==> {
                &&& rs.len() > 0 && went_well(rs[0])
                &&& names.contains("default-deny"@) && names.contains("allow-dns"@) && names.contains("allow-same-namespace"@)
                &&& names.contains("allow-internet-egress"@) && names.contains("allow-gateway-ssh"@)
            }
            &&& rs.len() == 0 ==> n == NextV::Ask(AskV::List { cluster: Cluster::Fleet, kind: Kind::NetworkPolicy, ns: c.own_ns })
        }),
{
    let names = names_of(rows_of(Some(doc_in(log.rs[0]))));
    let known = surface::binding_policies();
    assert(known[0] == "default-deny"@ && known[1] == "allow-dns"@ && known[2] == "allow-same-namespace"@ && known[3]
        == "allow-internet-egress"@ && known[4] == "allow-gateway-ssh"@);
    law_the_missing_are_known_and_not_named(known, names, seq![]);
    if names.contains("default-deny"@) && names.contains("allow-dns"@) && names.contains("allow-same-namespace"@) && names.contains(
        "allow-internet-egress"@,
    ) && names.contains("allow-gateway-ssh"@) {
        assert forall|i: int| 0 <= i < known.len() implies names.contains(#[trigger] known[i]) by {
            assert(i == 0 || i == 1 || i == 2 || i == 3 || i == 4);
        }
    }
}

/// The pages render exactly where each was answered well, from the path that was asked for without its query, and none of
/// them took longer than the second and a half that each is given.
pub proof fn law_pages_render_in_time_where_they_were_asked_for(base: Seq<char>, paths: Seq<Seq<char>>, log: LogV, k: nat)
    ensures
        ({
            let n = surface::pages_next(base, paths, log, k);
            &&& n is Pass <==> {
                &&& forall|i: int|
                    k <= i < paths.len() ==> i < log.rs.len() && (#[trigger] log.rs[i] matches ReplyV::Page { status, path, .. } && 200 <= status <= 299
                        && path == parts(paths[i], '?')[0])
                &&& forall|i: int| 0 <= i < paths.len() ==> #[trigger] surface::took(log, i) <= 1_500
            }
            &&& k < paths.len() && log.rs.len() == k ==> n == NextV::Ask(AskV::Page { url: base + paths[k as int] })
        }),
    decreases paths.len() - k,
{
    lemma_slow(paths, log);
    if k < paths.len() {
        law_pages_render_in_time_where_they_were_asked_for(base, paths, log, k + 1);
        assert(log.rs[k as int] == log.rs[k as int]);
    }
}

proof fn lemma_slow(paths: Seq<Seq<char>>, log: LogV)
    ensures
        surface::slow_pages(paths, log).len() == 0 <==> forall|i: int| 0 <= i < paths.len() ==> #[trigger] surface::took(log, i) <= 1_500,
    decreases paths.len(),
{
    if paths.len() > 0 {
        lemma_slow(paths.drop_last(), log);
        assert(surface::took(log, paths.len() - 1) == surface::took(log, paths.len() - 1));
    }
}

/// The body walks the fixed pages, the user's, and the repo's where there is one.
pub proof fn law_the_pages_of_a_run(c: RunV, own: Option<Seq<char>>, log: LogV, i: int)
    ensures
        surface::body_next(c, surface::BodyV::Pages { own }, log) == surface::pages_next(
            no_slash(c.web_url), surface::page_paths(c.probe_user, own), log, 0,
        ),
        surface::page_paths(c.probe_user, own).len() == if own is Some { 23nat } else { 17nat },
        surface::page_paths(c.probe_user, own)[0] == "/"@ && surface::page_paths(c.probe_user, own)[1] == "/new"@,
        surface::page_paths(c.probe_user, own)[15] == "/"@ + c.probe_user && surface::page_paths(c.probe_user, own)[16] == "/"@ + c.probe_user
            + "/registries"@,
        own is Some ==> surface::page_paths(c.probe_user, own)[18] == "/"@ + c.probe_user + "/"@ + own->0 + "/tree/main"@,
        own is Some ==> surface::page_paths(c.probe_user, own)[20] == "/"@ + c.probe_user + "/"@ + own->0 + "/pulls"@,
{
}

/// A repo's last changes are told exactly where the refs have a main branch, and the read at its commit answered with
/// something.
pub proof fn law_last_changes_are_told_of_the_tip(c: RunV, repo: Seq<char>, log: LogV)
    ensures
        ({
            let n = surface::body_next(c, surface::BodyV::Metadata { repo }, log);
            let rs = log.rs;
            let oid = oid_in(doc_in(rs[0]), "main"@);
            let d = doc_in(rs[1]);
            &&& n is Pass <==> {
                &&& rs.len() > 1 && went_well(rs[0]) && oid is Some && went_well(rs[1])
                &&& !(d is Null) && (d matches Doc::Obj(f) ==> f.len() > 0) && (d matches Doc::Arr(v) ==> v.len() > 0)
            }
            &&& rs.len() == 0 ==> n == NextV::Ask(getting(api_at(c, "/api/"@ + c.probe_user + "/"@ + repo + "/refs"@), c.probe_jwt))
            &&& rs.len() == 1 && n is Ask ==> n == NextV::Ask(
                getting(api_at(c, "/api/"@ + c.probe_user + "/"@ + repo + "/lastmod"@) + "/"@ + oid->0, c.probe_jwt),
            )
        }),
{
}

/// A session reads what it may exactly where the settings tell a clone host, the mark that only a peer may make was refused to
/// it, and the retired create answered.
pub proof fn law_a_session_reads_and_may_not_mark(c: RunV, name: Seq<char>, log: LogV)
    ensures
        ({
            let n = surface::body_next(c, surface::BodyV::SessionReads { name }, log);
            let rs = log.rs;
            let id = match text_of(doc_in(rs[1]), "id"@) { Some(t) => t, None => name };
            &&& n is Pass <==> {
                &&& rs.len() > 4 && went_well(rs[0]) && (member(doc_in(rs[0]), "clone_host"@) is Some || member(doc_in(rs[0]), "cloneHost"@) is Some)
                &&& went_well(rs[1])
                &&& answered(rs[2], 401) || answered(rs[2], 403)
                &&& went_well(rs[4]) || answered(rs[4], 409)
            }
            &&& rs.len() == 0 ==> n == NextV::Ask(getting(api_at(c, "/v1/settings/central"@), ""@))
            &&& rs.len() == 2 && n is Ask ==> n == NextV::Ask(
                posting(api_at(c, "/v1/passkeys/"@ + id + "/used"@), c.probe_jwt, Doc::Obj(seq![("counter"@, Doc::Int(1))])),
            )
            &&& rs.len() == 3 && n is Ask ==> n == NextV::Ask(deleting(api_at(c, "/v1/passkeys/"@ + id), c.probe_jwt))
        }),
{
}

/// The command line's verbs work exactly where the login was had and staged, the workspaces were listed, a team nobody is in
/// was listed or refused as such, and to log out went well; the login is gone afterwards.
pub proof fn law_the_verbs_work_and_the_login_goes(c: RunV, device: Seq<char>, log: LogV)
    ensures
        ({
            let n = surface::body_next(c, surface::BodyV::KlCommands { device }, log);
            let rs = log.rs;
            let id = listed_login(rs[3], device);
            &&& n is Pass <==> {
                &&& rs.len() > 8 && log.us.len() > 0 && !log.cut
                &&& begun(rs[0]) && went_well(rs[1]) && collected(rs[2]) && went_well(rs[3]) && id is Some
                &&& rs[4] is Said && rs[5] is Said && rs[6] is Said && rs[8] is Said
                &&& rs[7] is Said || (rs[7] matches ReplyV::Lost(why) && (holds(why, "no such team"@) || holds(why, "not a member"@))) || (!(rs[7] is Lost)
                    && !(rs[7] is Said) && surface::team_unanswered(rs[7]) is None)
                &&& went_well(log.us[0]) || answered(log.us[0], 404)
            }
            &&& rs.len() == 6 && n is Ask ==> (n matches NextV::Ask(AskV::Tool { program, argv, .. }) && program == Program::Kl && argv == seq![
                "ws"@,
                "list"@,
            ])
            &&& rs.len() == 7 && n is Ask ==> (n matches NextV::Ask(AskV::Tool { program, argv, .. }) && program == Program::Kl && argv == seq![
                "ws"@,
                "list"@,
                "--team"@,
                "no-such-team"@,
            ])
            &&& rs.len() == 8 && n is Ask ==> (n matches NextV::Ask(AskV::Tool { program, argv, .. }) && program == Program::Kl && argv
                == seq!["logout"@])
            &&& n matches NextV::Undo(u) ==> u == deleting(api_at(c, "/v1/cli/tokens/"@ + id->0), c.probe_jwt)
        }),
{
}

/// The console's reads answer exactly where the nodes are a list, the schema has fields in both scopes, the status write that
/// changes nothing was taken, and a series that is on no list is not found.
pub proof fn law_the_consoles_reads_answer(c: RunV, log: LogV)
    ensures
        ({
            let n = surface::body_next(c, surface::BodyV::Reads, log);
            let rs = log.rs;
            &&& n is Pass <==> {
                &&& rs.len() > 3 && went_well(rs[0]) && (items(member(doc_in(rs[0]), "nodes"@)) is Some || items(Some(doc_in(rs[0]))) is Some)
                &&& went_well(rs[1]) && rows_of(member(doc_in(rs[1]), "central"@)).len() > 0 && rows_of(member(doc_in(rs[1]), "cluster"@)).len() > 0
                &&& went_well(rs[2]) && answered(rs[3], 404)
            }
            &&& rs.len() == 0 ==> n == NextV::Ask(getting(admin_at(c, "/admin/nodes"@), c.admin_jwt))
            &&& rs.len() == 1 && n is Ask ==> n == NextV::Ask(getting(admin_at(c, "/admin/settings/schema"@), c.admin_jwt))
            &&& rs.len() == 3 && n is Ask ==> n == NextV::Ask(
                getting(admin_at(c, "/admin/history/no-such-series?range=1d&step=1h"@), c.admin_jwt),
            )
        }),
{
}

// ── a team's own ────────────────────────────────────────────────────────────

/// A revoked invitation is not to be redeemed: exactly where it was made, could be read, was revoked, and was then refused.
pub proof fn law_a_revoked_invitation_is_refused(c: RunV, slug: Seq<char>, log: LogV)
    ensures
        ({
            let n = teams::body_next(c, teams::BodyV::InviteRevoke { slug }, log);
            let rs = log.rs;
            let token = text_of(doc_in(rs[0]), "token"@);
            let id = text_of(doc_in(rs[0]), "id"@);
            &&& n is Pass <==> {
                &&& rs.len() > 3 && went_well(rs[0]) && token is Some && token->0.len() > 0 && id is Some && went_well(rs[1]) && went_well(rs[2])
                &&& answered(rs[3], 401) || answered(rs[3], 403) || answered(rs[3], 404) || answered(rs[3], 410)
            }
            &&& rs.len() == 1 && n is Ask ==> n == NextV::Ask(getting(api_at(c, "/v1/invites/"@ + token->0), c.other_jwt))
            &&& rs.len() == 2 && n is Ask ==> n == NextV::Ask(
                deleting(api_at(c, "/v1/teams/"@ + slug + "/invites"@) + "/"@ + id->0, c.probe_jwt),
            )
            &&& rs.len() == 3 && n is Ask ==> n == NextV::Ask(posting_nothing(api_at(c, "/v1/invites/"@ + token->0 + "/accept"@), c.other_jwt))
        }),
{
    lemma_two_refusals();
}

/// A team's environment is up exactly where it ran, a replica of its service was ready and the service answered; and it is
/// taken away, or the step fails.
pub proof fn law_a_teams_environment_answers_and_goes(c: RunV, slug: Seq<char>, t: Seq<char>, log: LogV)
    ensures
        ({
            let n = teams::body_next(c, teams::BodyV::TeamEnvironment { slug }, log);
            let rs = log.rs;
            let id = one_made(rs[0]);
            &&& n is Pass <==> rs.len() > 3 && log.us.len() > 0 && made_one(rs[0]) && came(rs[1]) && came(rs[2]) && came(rs[3]) && went_well(log.us[0])
            &&& rs.len() == 1 && made_one(rs[0]) ==> waits_until(
                n, api_at(c, "/v1/environments/"@ + id), c.probe_jwt, 180_000, |d: Doc| member(d, "state"@) == Some(Doc::Str("running"@)),
            )
            &&& rs.len() == 2 && n is Ask ==> n == NextV::Ask(
                AskV::Wait(WaitV::Replicas { ns: "env-"@ + id, name: "redis"@, cap_ms: 180_000 }),
            )
            &&& rs.len() == 3 && n is Ask ==> n == NextV::Ask(AskV::Wait(WaitV::Pong { ns: "env-"@ + id, cap_ms: 30_000 }))
            &&& n matches NextV::Undo(u) ==> u == deleting(api_at(c, "/v1/environments/"@ + id), c.probe_jwt)
            &&& teams::body_found(teams::BodyV::TeamEnvironment { slug }, log) == Some(t) <==> rs.len() > 0 && made_one(rs[0]) && id == t
        }),
        ({
            let n = teams::body_next(c, teams::BodyV::Team { slug }, log);
            &&& n is Pass <==> log.rs.len() > 0 && went_well(log.rs[0])
            &&& log.rs.len() == 0 ==> n == NextV::Ask(getting(api_at(c, "/v1/teams/"@ + slug), c.probe_jwt))
        }),
{
}

/// An attachment's policy comes with it and goes with the workspace: exactly where it was there once the two were attached, and
/// gone once the workspace was deleted.
pub proof fn law_an_attachments_policy_goes_with_its_workspace(c: RunV, env: Seq<char>, log: LogV)
    ensures
        ({
            let n = teams::body_next(c, teams::BodyV::AttachPair { env }, log);
            let rs = log.rs;
            let id = one_made(rs[0]);
            let policy = |there: bool| NextV::Ask(
                AskV::Wait(WaitV::Policy { ns: "env-"@ + env, name: "attach-"@ + id, want: there, cap_ms: 30_000 }),
            );
            &&& n is Pass <==> rs.len() > 5 && made_one(rs[0]) && came(rs[1]) && went_well(rs[2]) && came(rs[3]) && went_well(rs[4]) && came(rs[5])
            &&& rs.len() == 0 ==> creates(n, c, "run-"@ + c.run_id + "-att"@, seq![])
            &&& rs.len() == 2 && n is Ask ==> n == NextV::Ask(
                posting(api_at(c, "/v1/workspaces/"@ + id) + "/attach"@, c.probe_jwt, Doc::Obj(seq![("environment"@, Doc::Str(env))])),
            )
            &&& rs.len() == 3 && n is Ask ==> n == policy(true)
            &&& rs.len() == 4 && n is Ask ==> n == NextV::Ask(deleting(api_at(c, "/v1/workspaces/"@ + id), c.probe_jwt))
            &&& rs.len() == 5 && n is Ask ==> n == policy(false)
        }),
{
}

/// Each step is about the run's own team, repo and environment.
pub proof fn law_a_surface_step_is_the_runs_own(c: RunV, s: StateV, os: Seq<OutcomeV>)
    ensures
        teams::attach_pair_move(c, s, os) matches MoveV::Step { id, body, .. } ==> id == "env.attach.pair"@ && c.has_kube && (body
            matches teams::BodyV::AttachPair { env } && s.env_multi == Some(env)),
        teams::invite_revoke_move(c, os) matches MoveV::Step { id, body, .. } ==> id == "team.invite.revoke"@ && passed(os[0]) && body == (
        teams::BodyV::InviteRevoke { slug: "run-"@ + c.run_id + "-team"@ }),
        teams::team_environment_move(c, os) matches MoveV::Step { id, body, .. } ==> id == "team.environment"@ && passed(os[0]) && body == (
        teams::BodyV::TeamEnvironment { slug: "run-"@ + c.run_id + "-team"@ }),
        pulls::description_move(s, os) matches MoveV::Step { id, body, .. } ==> id == "repo.description"@ && (body matches pulls::BodyV::Description {
            name,
        } && s.repo == Some(name)),
        pulls::merge_strategies_move(s, os) matches MoveV::Step { id, body, .. } ==> id == "pr.merge.strategies"@ && (body
            matches pulls::BodyV::MergeStrategies { name } && s.repo == Some(name)),
        pulls::mergeability_move(s, os) matches MoveV::Step { id, body, .. } ==> id == "pr.mergeability"@ && (body
            matches pulls::BodyV::Mergeability { name } && s.repo == Some(name)),
        surface::pages_move(s, os) matches MoveV::Step { id, body, .. } ==> id == "web.pages"@ && body == (surface::BodyV::Pages { own: s.repo }),
        surface::metadata_move(s, os) matches MoveV::Step { id, body, .. } ==> id == "repo.metadata"@ && (body matches surface::BodyV::Metadata { repo }
            && s.repo == Some(repo)),
        surface::session_reads_move(c, os) matches MoveV::Step { id, body, .. } ==> id == "id.session.reads"@ && body == (
        surface::BodyV::SessionReads { name: "run-"@ + c.run_id + "-used"@ }),
        surface::kl_commands_move(c, os) matches MoveV::Step { id, body, .. } ==> id == "kl.commands"@ && body == (surface::BodyV::KlCommands {
            device: "run-"@ + c.run_id + "-klc"@,
        }),
        surface::quota_namespace_move(c, os) matches MoveV::Step { id, body, .. } ==> id == "ws.quota.namespace"@ && c.has_kube && body
            == surface::BodyV::QuotaNamespace,
        surface::services_policies_move(c, os) matches MoveV::Step { id, body, .. } ==> id == "env.services.policies"@ && c.has_kube && body
            == surface::BodyV::ServicesPolicies,
        surface::reads_move(os) matches MoveV::Step { id, body, .. } ==> id == "admin.reads"@ && body == surface::BodyV::Reads,
        surface::reads_move(os) matches MoveV::Demote { why, .. } ==> why
            == "the history layer answered 503, so the series allow-list was never consulted"@ && !passed(os[0]),
{
    reveal_strlit("the history layer answered 503, so the series allow-list was never consulted");
    assert("the history layer answered 503, so the series allow-list was never consulted"@.len() > 0);
}

} // verus!
