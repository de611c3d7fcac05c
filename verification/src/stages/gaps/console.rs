//! The admin console: listings, stops and deletes, the screens, the workloads, the audit export, and
//! the decisions on requests.

use vstd::prelude::*;

use crate::json::{
    Doc, Json, arr0, arr1, array_of, column, column_of, docs, int_doc, items, lemma_docs, member, obj1, obj2, obj3, obj4,
    opt_doc, rows_of, telling, tells, text_of, text_or, text_or_empty, txt,
};
use crate::reply::{
    call_error, call_failed, doc, doc_of, failed, is_success, lost, lost_in, lost_of, lost_within, made, made_of, raw, raw_of,
    success, tell, told, undo_failed,
};
use crate::run::{Run, RunV, State, StateV, admin, admin_at, api, api_at, name, named, prefix, prefix_of};
use crate::stages::gaps::{ADMIN_DELETE_MS, ADMIN_ENV_MS, DECIDE_MS, NOTE, QUOTA_GB, READ_MS, redis, redis_service};
use crate::stages::security::failing;
use crate::text::{
    cat2, cat3, contains, dec, decimal, has_text, holds, join, joined, lines, lines_of, list2, list3, same, starts, starts_with,
    texts, trim, trimmed,
};
use crate::turn::{Move, MoveV, Outcome, OutcomeV, one, one_move, outcomes, reports, reports_exactly};
use crate::wait::{Wait, WaitV};
use crate::want::{Want, WantV};
use crate::wire::{
    Ask, AskV, Log, LogV, Next, NextV, Payload, PayloadV, Reply, ReplyV, Verb, call, calling, deleting, end, erase, err_of, get,
    getting, inside, link, opt, post, posting, undo_after, undoing, within,
};

verus! {

/// Some row's display name starts with `prefix`.
pub open spec fn displays(row: Doc, prefix: Seq<char>) -> bool {
    match text_of(row, "display_name"@) {
        Some(t) => starts(t, prefix),
        None => false,
    }
}

pub open spec fn some_displayed(rows: Seq<Doc>, prefix: Seq<char>) -> bool {
    exists|i: int| 0 <= i < rows.len() && #[trigger] displays(rows[i], prefix)
}

fn any_displayed(rows: &Vec<Json>, prefix: &str) -> (r: bool)
    ensures
        r == some_displayed(docs(rows@), prefix@),
{
    let ghost all = docs(rows@);
    proof {
        lemma_docs(rows@);
    }
    let mut i: usize = 0;
    while i < rows.len()
        invariant
            i <= rows@.len(),
            all == docs(rows@),
            all.len() == rows@.len(),
            forall|k: int| 0 <= k < rows@.len() ==> #[trigger] all[k] == rows@[k]@,
            forall|k: int| 0 <= k < i ==> !#[trigger] displays(all[k], prefix@),
        decreases rows.len() - i,
    {
        proof {
            assert(all[i as int] == rows@[i as int]@);
        }
        if let Some(t) = rows[i].text_at("display_name") {
            if starts_with(t.as_str(), prefix) {
                proof {
                    assert(displays(all[i as int], prefix@));
                }
                return true;
            }
        }
        i = i + 1;
    }
    false
}

/// Why a listing of the volumes names none that this run holds. A volume is found by its display
/// name: its name is the id of what it belongs to.
pub open spec fn names_none(prefix: Seq<char>, r: ReplyV) -> Option<Seq<char>> {
    match doc_of(r) {
        Err(why) => Some(within("could not list the volumes"@, why)),
        Ok(d) => match items(Some(d)) {
            None => Some("the volume list is not a list"@),
            Some(rows) => if some_displayed(rows, prefix) {
                None
            } else {
                Some("the listing names none of the "@ + dec(rows.len()) + " volumes this run holds"@)
            },
        },
    }
}

fn named_none(prefix: &str, r: &Reply) -> (o: Option<String>)
    ensures
        opt(o) == names_none(prefix@, r@),
{
    match doc(r) {
        Err(why) => Some(inside("could not list the volumes", why.as_str())),
        Ok(d) => match array_of(Some(&d)) {
            None => Some("the volume list is not a list".to_owned()),
            Some(rows) => {
                proof {
                    lemma_docs(rows@);
                }
                if any_displayed(rows, prefix) {
                    None
                } else {
                    Some(cat3("the listing names none of the ", decimal(rows.len() as u64).as_str(), " volumes this run holds"))
                }
            },
        },
    }
}

pub open spec fn vol_list_next(c: RunV, rs: Seq<ReplyV>) -> NextV {
    link(rs, 0, getting(api_at(c, "/v1/volumes"@), c.probe_jwt), names_none(prefix_of(c), rs[0]), NextV::Pass)
}

fn vol_list_body(c: &Run, log: &Log) -> (n: Next)
    ensures
        n@ == vol_list_next(c@, log@.rs),
{
    if log.rs.len() <= 0 {
        return Next::Ask(get(api(c, "/v1/volumes"), c.probe_jwt.as_str()));
    }
    end(named_none(prefix(c).as_str(), &log.rs[0]))
}

/// The owner's own read says whether the stop happened: an admin route that only satisfies itself
/// proves nothing. It is running first, since stopping what is stopped measures nothing.
pub open spec fn admin_stop_next(c: RunV, env: Seq<char>, rs: Seq<ReplyV>) -> NextV {
    link(
        rs, 0,
        AskV::Wait(WaitV::Doc {
            url: api_at(c, "/v1/environments/"@ + env),
            token: c.probe_jwt,
            want: WantV::Field { key: "state"@, value: "running"@ },
            cap_ms: 120_000,
        }),
        lost_in("the environment was not running to begin with"@, rs[0]),
        link(
            rs, 1,
            posting(
                admin_at(c, "/admin/environments/"@ + env + "/stop"@), c.admin_jwt, Doc::Obj(seq![("note"@, Doc::Str(NOTE@))]),
            ),
            call_failed("the admin stop was refused"@, rs[1]),
            link(
                rs, 2,
                AskV::Wait(WaitV::Doc {
                    url: api_at(c, "/v1/environments/"@ + env),
                    token: c.probe_jwt,
                    want: WantV::Field { key: "state"@, value: "stopped"@ },
                    cap_ms: 45_000,
                }),
                lost_in("the owner's own read never showed it stopped"@, rs[2]), NextV::Pass,
            ),
        ),
    )
}

fn admin_stop_body(c: &Run, env: &str, log: &Log) -> (n: Next)
    ensures
        n@ == admin_stop_next(c@, env@, log@.rs),
{
    if log.rs.len() <= 0 {
        return Next::Ask(Ask::Wait(Wait::Doc {
            url: api(c, cat2("/v1/environments/", env).as_str()),
            token: c.probe_jwt.clone(),
            want: Want::Field { key: "state".to_owned(), value: "running".to_owned() },
            cap_ms: 120_000,
        }));
    }
    if let Some(why) = lost_within("the environment was not running to begin with", &log.rs[0]) {
        return Next::Fail(why);
    }
    if log.rs.len() <= 1 {
        return Next::Ask(post(
            admin(c, cat3("/admin/environments/", env, "/stop").as_str()), c.admin_jwt.as_str(), obj1("note", txt(NOTE)),
        ));
    }
    if let Some(why) = failed("the admin stop was refused", &log.rs[1]) {
        return Next::Fail(why);
    }
    if log.rs.len() <= 2 {
        return Next::Ask(Ask::Wait(Wait::Doc {
            url: api(c, cat2("/v1/environments/", env).as_str()),
            token: c.probe_jwt.clone(),
            want: Want::Field { key: "state".to_owned(), value: "stopped".to_owned() },
            cap_ms: 45_000,
        }));
    }
    end(lost_within("the owner's own read never showed it stopped", &log.rs[2]))
}

/// The console's two deletes, each of an object of the run's own making, each judged by its owner's
/// read. Neither object is waited for: one that is still coming up is deleted the same way.
pub open spec fn admin_delete_next(c: RunV, rs: Seq<ReplyV>) -> NextV {
    let ws = made("could not create a workspace to delete"@, "id"@, "the answer carried no id"@, rs[0])->Ok_0;
    let env = made("could not create an environment to delete"@, "id"@, "the answer carried no id"@, rs[1])->Ok_0;
    link(
        rs, 0,
        posting(
            api_at(c, "/v1/workspaces"@), c.probe_jwt,
            Doc::Obj(seq![
                ("name"@, Doc::Str(named(c, "-ad-w"@))),
                ("region"@, Doc::Str(c.region)),
                ("quota_gb"@, Doc::Int(QUOTA_GB as int)),
                ("packages"@, Doc::Arr(seq![])),
            ]),
        ),
        err_of(made("could not create a workspace to delete"@, "id"@, "the answer carried no id"@, rs[0])),
        link(
            rs, 1,
            posting(
                api_at(c, "/v1/environments"@), c.probe_jwt,
                Doc::Obj(seq![
                    ("name"@, Doc::Str(named(c, "-ad-e"@))),
                    ("region"@, Doc::Str(c.region)),
                    ("quota_gb"@, Doc::Int(QUOTA_GB as int)),
                    ("services"@, Doc::Arr(seq![redis_service()])),
                ]),
            ),
            err_of(made("could not create an environment to delete"@, "id"@, "the answer carried no id"@, rs[1])),
            link(
                rs, 2,
                calling(
                    Verb::Delete, admin_at(c, "/admin/workspaces/"@ + ws), c.admin_jwt,
                    PayloadV::Doc(Doc::Obj(seq![("note"@, Doc::Str(NOTE@))])),
                ),
                call_failed("the admin delete of the workspace was refused"@, rs[2]),
                link(
                    rs, 3,
                    AskV::Wait(WaitV::Gone {
                        url: api_at(c, "/v1/workspaces/"@ + ws),
                        token: c.probe_jwt,
                        what: "workspace"@,
                        cap_ms: 60_000,
                    }),
                    lost_of(rs[3]),
                    link(
                        rs, 4,
                        calling(
                            Verb::Delete, admin_at(c, "/admin/environments/"@ + env), c.admin_jwt,
                            PayloadV::Doc(Doc::Obj(seq![("note"@, Doc::Str(NOTE@))])),
                        ),
                        call_failed("the admin delete of the environment was refused"@, rs[4]),
                        link(
                            rs, 5,
                            AskV::Wait(WaitV::Gone {
                                url: api_at(c, "/v1/environments/"@ + env),
                                token: c.probe_jwt,
                                what: "environment"@,
                                cap_ms: 60_000,
                            }),
                            lost_of(rs[5]), NextV::Pass,
                        ),
                    ),
                ),
            ),
        ),
    )
}

fn admin_delete_body(c: &Run, log: &Log) -> (n: Next)
    ensures
        n@ == admin_delete_next(c@, log@.rs),
{
    if log.rs.len() <= 0 {
        return Next::Ask(post(
            api(c, "/v1/workspaces"), c.probe_jwt.as_str(),
            obj4(
                "name", txt(name(c, "-ad-w").as_str()), "region", txt(c.region.as_str()), "quota_gb", int_doc(QUOTA_GB),
                "packages", arr0(),
            ),
        ));
    }
    let ws = match made_of("could not create a workspace to delete", "id", "the answer carried no id", &log.rs[0]) {
        Err(why) => {
            return Next::Fail(why);
        },
        Ok(t) => t,
    };
    if log.rs.len() <= 1 {
        return Next::Ask(post(
            api(c, "/v1/environments"), c.probe_jwt.as_str(),
            obj4(
                "name", txt(name(c, "-ad-e").as_str()), "region", txt(c.region.as_str()), "quota_gb", int_doc(QUOTA_GB),
                "services", arr1(redis()),
            ),
        ));
    }
    let env = match made_of("could not create an environment to delete", "id", "the answer carried no id", &log.rs[1]) {
        Err(why) => {
            return Next::Fail(why);
        },
        Ok(t) => t,
    };
    if log.rs.len() <= 2 {
        return Next::Ask(call(
            Verb::Delete, admin(c, cat2("/admin/workspaces/", ws.as_str()).as_str()), c.admin_jwt.as_str(),
            Payload::Doc(obj1("note", txt(NOTE))),
        ));
    }
    if let Some(why) = failed("the admin delete of the workspace was refused", &log.rs[2]) {
        return Next::Fail(why);
    }
    if log.rs.len() <= 3 {
        return Next::Ask(Ask::Wait(Wait::Gone {
            url: api(c, cat2("/v1/workspaces/", ws.as_str()).as_str()),
            token: c.probe_jwt.clone(),
            what: "workspace".to_owned(),
            cap_ms: 60_000,
        }));
    }
    if let Some(why) = lost(&log.rs[3]) {
        return Next::Fail(why);
    }
    if log.rs.len() <= 4 {
        return Next::Ask(call(
            Verb::Delete,
            admin(c, cat2("/admin/environments/", env.as_str()).as_str()), c.admin_jwt.as_str(),
            Payload::Doc(obj1("note", txt(NOTE))),
        ));
    }
    if let Some(why) = failed("the admin delete of the environment was refused", &log.rs[4]) {
        return Next::Fail(why);
    }
    if log.rs.len() <= 5 {
        return Next::Ask(Ask::Wait(Wait::Gone {
            url: api(c, cat2("/v1/environments/", env.as_str()).as_str()),
            token: c.probe_jwt.clone(),
            what: "environment".to_owned(),
            cap_ms: 60_000,
        }));
    }
    end(lost(&log.rs[5]))
}

/// A row that names `who` under one of the fields a screen may name it under.
pub open spec fn row_tells(row: Doc, keys: Seq<Seq<char>>, who: Seq<char>) -> bool {
    exists|k: int| 0 <= k < keys.len() && #[trigger] text_of(row, keys[k]) == Some(who)
}

pub open spec fn some_tells(rows: Seq<Doc>, keys: Seq<Seq<char>>, who: Seq<char>) -> bool {
    exists|i: int| 0 <= i < rows.len() && #[trigger] row_tells(rows[i], keys, who)
}

fn told_by(row: &Json, keys: &Vec<String>, who: &str) -> (r: bool)
    ensures
        r == row_tells(row@, texts(keys@), who@),
{
    let mut k: usize = 0;
    while k < keys.len()
        invariant
            k <= keys@.len(),
            forall|j: int| 0 <= j < k ==> #[trigger] text_of(row@, texts(keys@)[j]) != Some(who@),
        decreases keys.len() - k,
    {
        if row.is_at(keys[k].as_str(), who) {
            proof {
                assert(text_of(row@, texts(keys@)[k as int]) == Some(who@));
            }
            return true;
        }
        proof {
            assert(texts(keys@)[k as int] == keys@[k as int]@);
        }
        k = k + 1;
    }
    false
}

/// Whether some row of a list names `who` under one of the fields `keys`.
pub fn any_told(rows: &Vec<Json>, keys: &Vec<String>, who: &str) -> (r: bool)
    ensures
        r == some_tells(docs(rows@), texts(keys@), who@),
{
    let ghost all = docs(rows@);
    proof {
        lemma_docs(rows@);
    }
    let mut i: usize = 0;
    while i < rows.len()
        invariant
            i <= rows@.len(),
            all == docs(rows@),
            all.len() == rows@.len(),
            forall|k: int| 0 <= k < rows@.len() ==> #[trigger] all[k] == rows@[k]@,
            forall|k: int| 0 <= k < i ==> !#[trigger] row_tells(all[k], texts(keys@), who@),
        decreases rows.len() - i,
    {
        proof {
            assert(all[i as int] == rows@[i as int]@);
        }
        if told_by(&rows[i], keys, who) {
            proof {
                assert(row_tells(all[i as int], texts(keys@), who@));
            }
            return true;
        }
        i = i + 1;
    }
    false
}

/// Why the owners' screen does not show `who`: a screen with nothing on it is a 200 all the same.
pub open spec fn owner_unlisted(who: Seq<char>, r: ReplyV) -> Option<Seq<char>> {
    match doc_of(r) {
        Err(why) => Some(within("the owners screen"@, why)),
        Ok(d) => if some_tells(rows_of(Some(d)), seq!["slug"@, "owner"@, "name"@], who) {
            None
        } else {
            Some("the owners screen does not list "@ + who)
        },
    }
}

fn owner_missing(who: &str, r: &Reply) -> (o: Option<String>)
    ensures
        opt(o) == owner_unlisted(who@, r@),
{
    match doc(r) {
        Err(why) => Some(inside("the owners screen", why.as_str())),
        Ok(d) => {
            let listed = match array_of(Some(&d)) {
                Some(rows) => any_told(rows, &list3("slug", "owner", "name"), who),
                None => false,
            };
            if listed { None } else { Some(cat2("the owners screen does not list ", who)) }
        },
    }
}

/// The screens nothing else reads, as one claim: the console renders.
pub open spec fn screens_next(c: RunV, rs: Seq<ReplyV>) -> NextV {
    link(
        rs, 0, getting(admin_at(c, "/admin/owners"@), c.admin_jwt), owner_unlisted(c.probe_user, rs[0]),
        link(
            rs, 1,
            getting(admin_at(c, "/admin/owners/"@ + c.probe_user), c.admin_jwt), call_failed("the owner detail screen"@, rs[1]),
            link(
                rs, 2, getting(admin_at(c, "/admin/clusters"@), c.admin_jwt), call_failed("the clusters screen"@, rs[2]),
                link(
                    rs, 3, getting(admin_at(c, "/admin/overview"@), c.admin_jwt), call_failed("the overview screen"@, rs[3]),
                    NextV::Pass,
                ),
            ),
        ),
    )
}

fn screens_body(c: &Run, log: &Log) -> (n: Next)
    ensures
        n@ == screens_next(c@, log@.rs),
{
    if log.rs.len() <= 0 {
        return Next::Ask(get(admin(c, "/admin/owners"), c.admin_jwt.as_str()));
    }
    if let Some(why) = owner_missing(c.probe_user.as_str(), &log.rs[0]) {
        return Next::Fail(why);
    }
    if log.rs.len() <= 1 {
        return Next::Ask(get(admin(c, cat2("/admin/owners/", c.probe_user.as_str()).as_str()), c.admin_jwt.as_str()));
    }
    if let Some(why) = failed("the owner detail screen", &log.rs[1]) {
        return Next::Fail(why);
    }
    if log.rs.len() <= 2 {
        return Next::Ask(get(admin(c, "/admin/clusters"), c.admin_jwt.as_str()));
    }
    if let Some(why) = failed("the clusters screen", &log.rs[2]) {
        return Next::Fail(why);
    }
    if log.rs.len() <= 3 {
        return Next::Ask(get(admin(c, "/admin/overview"), c.admin_jwt.as_str()));
    }
    end(failed("the overview screen", &log.rs[3]))
}

/// The rows of the workloads' answer: a field of its own, or the answer itself.
pub open spec fn workload_rows(d: Doc) -> Option<Seq<Doc>> {
    match items(member(d, "workloads"@)) {
        Some(rows) => Some(rows),
        None => items(Some(d)),
    }
}

fn workload_list(d: &Json) -> (r: Option<&Vec<Json>>)
    ensures
        (match r { Some(rows) => Some(docs(rows@)), None => None }) == workload_rows(d@),
{
    match array_of(d.get("workloads")) {
        Some(rows) => Some(rows),
        None => array_of(Some(d)),
    }
}

/// The texts of `known` that `named` does not hold, in order.
pub open spec fn missing_from(known: Seq<Seq<char>>, named: Seq<Seq<char>>) -> Seq<Seq<char>>
    decreases known.len(),
{
    if known.len() == 0 {
        seq![]
    } else {
        let before = missing_from(known.drop_last(), named);
        if named.contains(known.last()) { before } else { before.push(known.last()) }
    }
}

pub fn missing(known: &Vec<String>, named: &Vec<String>) -> (r: Vec<String>)
    ensures
        texts(r@) == missing_from(texts(known@), texts(named@)),
{
    let ghost all = texts(known@);
    let mut r: Vec<String> = Vec::new();
    let mut i: usize = 0;
    proof {
        assert(all.take(0) =~= Seq::<Seq<char>>::empty());
        assert(texts(r@) =~= Seq::<Seq<char>>::empty());
    }
    while i < known.len()
        invariant
            i <= known@.len(),
            all == texts(known@),
            texts(r@) == missing_from(all.take(i as int), texts(named@)),
        decreases known.len() - i,
    {
        proof {
            assert(all.take(i + 1).drop_last() =~= all.take(i as int));
            assert(all.take(i + 1).last() == known@[i as int]@);
        }
        let ghost before = r@;
        if !has_text(named, known[i].as_str()) {
            r.push(known[i].clone());
            proof {
                assert(texts(r@) =~= texts(before).push(known@[i as int]@));
            }
        }
        i = i + 1;
    }
    proof {
        assert(all.take(all.len() as int) =~= all);
    }
    r
}

/// The first row without what a roll is prechecked by.
pub open spec fn unsized_row(rows: Seq<Doc>) -> Option<Doc>
    decreases rows.len(),
{
    if rows.len() == 0 {
        None
    } else if member(rows[0], "ready"@) is None || member(rows[0], "desired"@) is None {
        Some(rows[0])
    } else {
        unsized_row(rows.skip(1))
    }
}

fn unsized_in(rows: &Vec<Json>) -> (r: Option<&Json>)
    ensures
        opt_doc(r) == unsized_row(docs(rows@)),
{
    let ghost all = docs(rows@);
    proof {
        lemma_docs(rows@);
        assert(all.skip(0) =~= all);
    }
    let mut i: usize = 0;
    while i < rows.len()
        invariant
            i <= rows@.len(),
            all == docs(rows@),
            all.len() == rows@.len(),
            forall|k: int| 0 <= k < rows@.len() ==> #[trigger] all[k] == rows@[k]@,
            unsized_row(all) == unsized_row(all.skip(i as int)),
        decreases rows.len() - i,
    {
        proof {
            assert(all.skip(i as int)[0] == rows@[i as int]@);
            assert(all.skip(i as int).skip(1) =~= all.skip(i + 1));
        }
        if rows[i].get("ready").is_none() || rows[i].get("desired").is_none() {
            return Some(&rows[i]);
        }
        i = i + 1;
    }
    None
}

/// Why a list of the workloads would let a save go out ahead of the pods that read it: it is empty,
/// or a workload the platform knows is not on it, or one is on it without its sizes.
pub open spec fn workloads_lack(known: Seq<Seq<char>>, r: ReplyV) -> Option<Seq<char>> {
    match doc_of(r) {
        Err(why) => Some(within("could not read the workloads"@, why)),
        Ok(d) => match workload_rows(d) {
            None => Some("the answer carried no workloads"@),
            Some(rows) => if rows.len() == 0 {
                Some("the workloads list names no roll target at all"@)
            } else {
                let missing = missing_from(known, column(rows, "name"@));
                if missing.len() > 0 {
                    Some("the workloads list does not name "@ + joined(missing, ", "@))
                } else {
                    match unsized_row(rows) {
                        None => None,
                        Some(row) => Some(
                            "`"@ + (match text_of(row, "name"@) { Some(t) => t, None => "a workload"@ })
                                + "` is listed without ready/desired, which is what a Boot save prechecks"@,
                        ),
                    }
                }
            },
        },
    }
}

fn workloads_bad(known: &Vec<String>, r: &Reply) -> (o: Option<String>)
    ensures
        opt(o) == workloads_lack(texts(known@), r@),
{
    match doc(r) {
        Err(why) => Some(inside("could not read the workloads", why.as_str())),
        Ok(d) => match workload_list(&d) {
            None => Some("the answer carried no workloads".to_owned()),
            Some(rows) => {
                proof {
                    lemma_docs(rows@);
                }
                if rows.len() == 0 {
                    return Some("the workloads list names no roll target at all".to_owned());
                }
                let missing = missing(known, &column_of(rows, "name"));
                if missing.len() > 0 {
                    return Some(cat2("the workloads list does not name ", join(&missing, ", ").as_str()));
                }
                match unsized_in(rows) {
                    None => None,
                    Some(row) => {
                        let name = match row.text_at("name") {
                            Some(t) => t,
                            None => "a workload".to_owned(),
                        };
                        Some(cat3("`", name.as_str(), "` is listed without ready/desired, which is what a Boot save prechecks"))
                    },
                }
            },
        },
    }
}

pub open spec fn workloads_next(c: RunV, rs: Seq<ReplyV>) -> NextV {
    link(rs, 0, getting(admin_at(c, "/admin/workloads"@), c.admin_jwt), workloads_lack(c.known_workloads, rs[0]), NextV::Pass)
}

fn workloads_body(c: &Run, log: &Log) -> (n: Next)
    ensures
        n@ == workloads_next(c@, log@.rs),
{
    if log.rs.len() <= 0 {
        return Next::Ask(get(admin(c, "/admin/workloads"), c.admin_jwt.as_str()));
    }
    end(workloads_bad(&c.known_workloads, &log.rs[0]))
}

/// The lines that hold something.
pub open spec fn full_lines(lines: Seq<Seq<char>>) -> Seq<Seq<char>>
    decreases lines.len(),
{
    if lines.len() == 0 {
        seq![]
    } else {
        let before = full_lines(lines.drop_last());
        if trimmed(lines.last()).len() == 0 { before } else { before.push(lines.last()) }
    }
}

fn filled_lines(all: &Vec<String>) -> (r: Vec<String>)
    ensures
        texts(r@) == full_lines(texts(all@)),
{
    let ghost lines = texts(all@);
    let mut r: Vec<String> = Vec::new();
    let mut i: usize = 0;
    proof {
        assert(lines.take(0) =~= Seq::<Seq<char>>::empty());
        assert(texts(r@) =~= Seq::<Seq<char>>::empty());
    }
    while i < all.len()
        invariant
            i <= all@.len(),
            lines == texts(all@),
            texts(r@) == full_lines(lines.take(i as int)),
        decreases all.len() - i,
    {
        proof {
            assert(lines.take(i + 1).drop_last() =~= lines.take(i as int));
            assert(lines.take(i + 1).last() == all@[i as int]@);
        }
        let ghost before = r@;
        if !trim(all[i].as_str()).as_str().is_empty() {
            r.push(all[i].clone());
            proof {
                assert(texts(r@) =~= texts(before).push(all@[i as int]@));
            }
        }
        i = i + 1;
    }
    proof {
        assert(lines.take(lines.len() as int) =~= lines);
    }
    r
}

/// Why an export is not a table: it needs a header and a row, since a header with nothing under it
/// is what a broken reader produces.
pub open spec fn export_lacks(r: ReplyV) -> Option<Seq<char>> {
    match raw_of(r) {
        Err(why) => Some(why),
        Ok((status, body)) => if !is_success(status) {
            Some(told(status, body, 200))
        } else {
            let lines = full_lines(lines_of(body));
            if lines.len() == 0 {
                Some("the export is empty — not even a header"@)
            } else if lines.len() == 1 {
                Some("the export carries a header and no rows"@)
            } else if holds(lines[0], ","@) {
                None
            } else {
                Some("the export's first line is not a CSV header"@)
            }
        },
    }
}

fn export_bad(r: &Reply) -> (o: Option<String>)
    ensures
        opt(o) == export_lacks(r@),
{
    match raw(r) {
        Err(why) => Some(why),
        Ok((status, body)) => {
            if !success(status) {
                return Some(tell(status, body.as_str(), 200));
            }
            let lines = filled_lines(&lines(body.as_str()));
            proof {
                assert(texts(lines@).len() == lines@.len());
            }
            if lines.len() == 0 {
                Some("the export is empty — not even a header".to_owned())
            } else if lines.len() == 1 {
                Some("the export carries a header and no rows".to_owned())
            } else if contains(lines[0].as_str(), ",") {
                None
            } else {
                Some("the export's first line is not a CSV header".to_owned())
            }
        },
    }
}

pub open spec fn audit_export_next(c: RunV, rs: Seq<ReplyV>) -> NextV {
    link(rs, 0, getting(admin_at(c, "/admin/audit.csv?limit=50"@), c.admin_jwt), export_lacks(rs[0]), NextV::Pass)
}

fn audit_export_body(c: &Run, log: &Log) -> (n: Next)
    ensures
        n@ == audit_export_next(c@, log@.rs),
{
    if log.rs.len() <= 0 {
        return Next::Ask(get(admin(c, "/admin/audit.csv?limit=50"), c.admin_jwt.as_str()));
    }
    end(export_bad(&log.rs[0]))
}

/// What is wrong with a request that was to be denied: it is not, or no text in it holds its reason.
pub open spec fn undenied(request: Doc, note: Seq<char>) -> Option<Seq<char>> {
    let state = text_or_empty(request, "state"@);
    if state != "denied"@ {
        Some("the request reads back as `"@ + state + "`, not denied"@)
    } else if !tells(request, note) {
        Some("the denied request carries no reason the asker can read"@)
    } else {
        None
    }
}

/// A denied request reads back as denied and carries the reason: a state without one is a decision
/// the asker cannot act on.
pub fn denied_with(request: &Json, note: &str) -> (r: Result<(), String>)
    ensures
        failing(r) == undenied(request@, note@),
{
    let state = text_or(request, "state");
    if !same(state.as_str(), "denied") {
        return Err(cat3("the request reads back as `", state.as_str(), "`, not denied"));
    }
    if !telling(request, note) {
        return Err("the denied request carries no reason the asker can read".to_owned());
    }
    Ok(())
}

/// The same, of an answer.
pub open spec fn read_undenied(note: Seq<char>, r: ReplyV) -> Option<Seq<char>> {
    match doc_of(r) {
        Err(why) => Some(within("the asker cannot read it back"@, why)),
        Ok(d) => undenied(d, note),
    }
}

fn not_denied(note: &str, r: &Reply) -> (o: Option<String>)
    ensures
        opt(o) == read_undenied(note@, r@),
{
    match doc(r) {
        Err(why) => Some(inside("the asker cannot read it back", why.as_str())),
        Ok(d) => match denied_with(&d, note) {
            Ok(_) => None,
            Err(why) => Some(why),
        },
    }
}

/// An access request that is approved makes its asker a member, and a request of another kind that
/// is denied carries the reason. The team's own page answers a member only, so the asker's read of
/// it is the grant.
pub open spec fn decided_next(c: RunV, slug: Seq<char>, rs: Seq<ReplyV>) -> NextV {
    let first = made("could not open the access request"@, "id"@, "the answer carried no id"@, rs[1])->Ok_0;
    let second = made("could not open the request to deny"@, "id"@, "the answer carried no id"@, rs[4])->Ok_0;
    link(
        rs, 1,
        posting(
            api_at(c, "/v1/requests"@), c.other_jwt,
            Doc::Obj(seq![
                ("kind"@, Doc::Str("access"@)),
                ("reason"@, Doc::Str(prefix_of(c) + " slo probe access"@)),
                ("access"@, Doc::Obj(seq![("team"@, Doc::Str(slug)), ("role"@, Doc::Str("member"@))])),
            ]),
        ),
        err_of(made("could not open the access request"@, "id"@, "the answer carried no id"@, rs[1])),
        link(
            rs, 2,
            posting(
                admin_at(c, "/admin/requests/"@ + first + "/approve"@), c.admin_jwt, Doc::Obj(seq![("note"@, Doc::Str(NOTE@))]),
            ),
            call_failed("the access approval was refused"@, rs[2]),
            link(
                rs, 3,
                AskV::Wait(WaitV::Doc {
                    url: api_at(c, "/v1/teams/"@ + slug),
                    token: c.other_jwt,
                    want: WantV::Field { key: "slug"@, value: slug },
                    cap_ms: 20_000,
                }),
                lost_in("the approved access request granted no membership"@, rs[3]),
                link(
                    rs, 4,
                    posting(
                        api_at(c, "/v1/requests"@), c.other_jwt,
                        Doc::Obj(seq![
                            ("kind"@, Doc::Str("other"@)),
                            ("reason"@, Doc::Str(prefix_of(c) + " slo probe deny"@)),
                            ("other"@, Doc::Obj(seq![("title"@, Doc::Str("slo probe"@)), ("body"@, Doc::Str("deny me"@))])),
                        ]),
                    ),
                    err_of(made("could not open the request to deny"@, "id"@, "the answer carried no id"@, rs[4])),
                    link(
                        rs, 5,
                        posting(
                            admin_at(c, "/admin/requests/"@ + second + "/deny"@), c.admin_jwt,
                            Doc::Obj(seq![("note"@, Doc::Str("slo probe denied "@ + c.run_id))]),
                        ),
                        call_failed("the deny was refused"@, rs[5]),
                        link(
                            rs, 6, getting(api_at(c, "/v1/requests/"@ + second), c.other_jwt),
                            read_undenied("slo probe denied "@ + c.run_id, rs[6]), NextV::Pass,
                        ),
                    ),
                ),
            ),
        ),
    )
}

fn decided_body(c: &Run, slug: &str, log: &Log) -> (n: Next)
    ensures
        n@ == decided_next(c@, slug@, log@.rs),
{
    if log.rs.len() <= 1 {
        return Next::Ask(post(
            api(c, "/v1/requests"), c.other_jwt.as_str(),
            obj3(
                "kind", txt("access"), "reason", txt(cat2(prefix(c).as_str(), " slo probe access").as_str()), "access",
                obj2("team", txt(slug), "role", txt("member")),
            ),
        ));
    }
    let first = match made_of("could not open the access request", "id", "the answer carried no id", &log.rs[1]) {
        Err(why) => {
            return Next::Fail(why);
        },
        Ok(t) => t,
    };
    if log.rs.len() <= 2 {
        return Next::Ask(post(
            admin(c, cat3("/admin/requests/", first.as_str(), "/approve").as_str()), c.admin_jwt.as_str(),
            obj1("note", txt(NOTE)),
        ));
    }
    if let Some(why) = failed("the access approval was refused", &log.rs[2]) {
        return Next::Fail(why);
    }
    if log.rs.len() <= 3 {
        return Next::Ask(Ask::Wait(Wait::Doc {
            url: api(c, cat2("/v1/teams/", slug).as_str()),
            token: c.other_jwt.clone(),
            want: Want::Field { key: "slug".to_owned(), value: slug.to_owned() },
            cap_ms: 20_000,
        }));
    }
    if let Some(why) = lost_within("the approved access request granted no membership", &log.rs[3]) {
        return Next::Fail(why);
    }
    if log.rs.len() <= 4 {
        return Next::Ask(post(
            api(c, "/v1/requests"), c.other_jwt.as_str(),
            obj3(
                "kind", txt("other"), "reason", txt(cat2(prefix(c).as_str(), " slo probe deny").as_str()), "other",
                obj2("title", txt("slo probe"), "body", txt("deny me")),
            ),
        ));
    }
    let second = match made_of("could not open the request to deny", "id", "the answer carried no id", &log.rs[4]) {
        Err(why) => {
            return Next::Fail(why);
        },
        Ok(t) => t,
    };
    if log.rs.len() <= 5 {
        return Next::Ask(post(
            admin(c, cat3("/admin/requests/", second.as_str(), "/deny").as_str()), c.admin_jwt.as_str(),
            obj1("note", txt(cat2("slo probe denied ", c.run_id.as_str()).as_str())),
        ));
    }
    if let Some(why) = failed("the deny was refused", &log.rs[5]) {
        return Next::Fail(why);
    }
    if log.rs.len() <= 6 {
        return Next::Ask(get(api(c, cat2("/v1/requests/", second.as_str()).as_str()), c.other_jwt.as_str()));
    }
    end(not_denied(cat2("slo probe denied ", c.run_id.as_str()).as_str(), &log.rs[6]))
}

/// A team of its own, taken back whatever became of the requests.
pub open spec fn decide_kinds_next(c: RunV, slug: Seq<char>, log: LogV) -> NextV {
    link(
        log.rs, 0,
        posting(
            api_at(c, "/v1/teams"@), c.probe_jwt,
            Doc::Obj(seq![("slug"@, Doc::Str(slug)), ("name"@, Doc::Str("slo probe requests"@))]),
        ),
        call_failed("could not create the team the access request is for"@, log.rs[0]),
        undoing(
            log, (DECIDE_MS - 20_000) as u64, decided_next(c, slug, log.rs),
            deleting(api_at(c, "/v1/teams/"@ + slug), c.probe_jwt),
            call_failed("the request team was left standing"@, log.us[0]),
        ),
    )
}

fn decide_kinds_body(c: &Run, slug: &str, log: &Log) -> (n: Next)
    ensures
        n@ == decide_kinds_next(c@, slug@, log@),
{
    if log.rs.len() <= 0 {
        return Next::Ask(post(
            api(c, "/v1/teams"), c.probe_jwt.as_str(), obj2("slug", txt(slug), "name", txt("slo probe requests")),
        ));
    }
    if let Some(why) = failed("could not create the team the access request is for", &log.rs[0]) {
        return Next::Fail(why);
    }
    undo_after(
        log, (DECIDE_MS - 20_000), decided_body(c, slug, log),
        erase(api(c, cat2("/v1/teams/", slug).as_str()), c.probe_jwt.as_str()),
        undo_failed("the request team was left standing", log),
    )
}

/// Why an answer is no list.
pub open spec fn unlisted(context: Seq<char>, words: Seq<char>, r: ReplyV) -> Option<Seq<char>> {
    match doc_of(r) {
        Err(why) => Some(within(context, why)),
        Ok(d) => if items(Some(d)) is Some { None } else { Some(words) },
    }
}

fn no_list(context: &str, words: &str, r: &Reply) -> (o: Option<String>)
    ensures
        opt(o) == unlisted(context@, words@, r@),
{
    match doc(r) {
        Err(why) => Some(inside(context, why.as_str())),
        Ok(d) => {
            if array_of(Some(&d)).is_some() { None } else { Some(words.to_owned()) }
        },
    }
}

/// The retired queue is still readable, and still migrates. An empty one is its ordinary state.
pub open spec fn legacy_union_next(c: RunV, rs: Seq<ReplyV>) -> NextV {
    link(
        rs, 0, getting(admin_at(c, "/admin/quota-requests"@), c.admin_jwt),
        unlisted("the retired quota-request queue"@, "the retired queue did not answer a list"@, rs[0]),
        link(
            rs, 1,
            posting(admin_at(c, "/admin/requests/migrate"@), c.admin_jwt, Doc::Obj(seq![("note"@, Doc::Str(NOTE@))])),
            call_failed("the migration was refused"@, rs[1]),
            link(
                rs, 2, getting(admin_at(c, "/admin/requests"@), c.admin_jwt),
                unlisted("the admin queue"@, "the admin queue did not answer a list after the migration"@, rs[2]), NextV::Pass,
            ),
        ),
    )
}

fn legacy_union_body(c: &Run, log: &Log) -> (n: Next)
    ensures
        n@ == legacy_union_next(c@, log@.rs),
{
    if log.rs.len() <= 0 {
        return Next::Ask(get(admin(c, "/admin/quota-requests"), c.admin_jwt.as_str()));
    }
    if let Some(why) = no_list("the retired quota-request queue", "the retired queue did not answer a list", &log.rs[0]) {
        return Next::Fail(why);
    }
    if log.rs.len() <= 1 {
        return Next::Ask(post(admin(c, "/admin/requests/migrate"), c.admin_jwt.as_str(), obj1("note", txt(NOTE))));
    }
    if let Some(why) = failed("the migration was refused", &log.rs[1]) {
        return Next::Fail(why);
    }
    if log.rs.len() <= 2 {
        return Next::Ask(get(admin(c, "/admin/requests"), c.admin_jwt.as_str()));
    }
    end(no_list("the admin queue", "the admin queue did not answer a list after the migration", &log.rs[2]))
}

/// Why the region of this run is not on the list a create offers.
pub open spec fn region_unlisted(region: Seq<char>, r: ReplyV) -> Option<Seq<char>> {
    match doc_of(r) {
        Err(why) => Some(within("could not list the regions"@, why)),
        Ok(d) => if some_tells(rows_of(Some(d)), seq!["id"@, "name"@], region) {
            None
        } else {
            Some("`"@ + region + "` — the region this run is in — is not listed"@)
        },
    }
}

fn region_missing(region: &str, r: &Reply) -> (o: Option<String>)
    ensures
        opt(o) == region_unlisted(region@, r@),
{
    match doc(r) {
        Err(why) => Some(inside("could not list the regions", why.as_str())),
        Ok(d) => {
            let listed = match array_of(Some(&d)) {
                Some(rows) => any_told(rows, &list2("id", "name"), region),
                None => false,
            };
            if listed { None } else { Some(cat3("`", region, "` — the region this run is in — is not listed")) }
        },
    }
}

pub open spec fn region_status_next(c: RunV, rs: Seq<ReplyV>) -> NextV {
    link(
        rs, 0, getting(api_at(c, "/v1/regions"@), c.probe_jwt), region_unlisted(c.region, rs[0]),
        link(
            rs, 1,
            getting(admin_at(c, "/admin/clusters/"@ + c.region), c.admin_jwt), call_failed("the cluster's own status"@, rs[1]),
            NextV::Pass,
        ),
    )
}

fn region_status_body(c: &Run, log: &Log) -> (n: Next)
    ensures
        n@ == region_status_next(c@, log@.rs),
{
    if log.rs.len() <= 0 {
        return Next::Ask(get(api(c, "/v1/regions"), c.probe_jwt.as_str()));
    }
    if let Some(why) = region_missing(c.region.as_str(), &log.rs[0]) {
        return Next::Fail(why);
    }
    if log.rs.len() <= 1 {
        return Next::Ask(get(admin(c, cat2("/admin/clusters/", c.region.as_str()).as_str()), c.admin_jwt.as_str()));
    }
    end(failed("the cluster's own status", &log.rs[1]))
}

pub enum Body {
    VolList,
    AdminStop { env: String },
    AdminDelete,
    Screens,
    Workloads,
    AuditExport,
    DecideKinds { slug: String },
    LegacyUnion,
    RegionStatus,
}

pub enum BodyV {
    VolList,
    AdminStop { env: Seq<char> },
    AdminDelete,
    Screens,
    Workloads,
    AuditExport,
    DecideKinds { slug: Seq<char> },
    LegacyUnion,
    RegionStatus,
}

impl View for Body {
    type V = BodyV;

    open spec fn view(&self) -> BodyV {
        match self {
            Body::VolList => BodyV::VolList,
            Body::AdminStop { env } => BodyV::AdminStop { env: env@ },
            Body::AdminDelete => BodyV::AdminDelete,
            Body::Screens => BodyV::Screens,
            Body::Workloads => BodyV::Workloads,
            Body::AuditExport => BodyV::AuditExport,
            Body::DecideKinds { slug } => BodyV::DecideKinds { slug: slug@ },
            Body::LegacyUnion => BodyV::LegacyUnion,
            Body::RegionStatus => BodyV::RegionStatus,
        }
    }
}

/// What a body does next.
pub open spec fn body_next(c: RunV, b: BodyV, log: LogV) -> NextV {
    match b {
        BodyV::VolList => vol_list_next(c, log.rs),
        BodyV::AdminStop { env } => admin_stop_next(c, env, log.rs),
        BodyV::AdminDelete => admin_delete_next(c, log.rs),
        BodyV::Screens => screens_next(c, log.rs),
        BodyV::Workloads => workloads_next(c, log.rs),
        BodyV::AuditExport => audit_export_next(c, log.rs),
        BodyV::DecideKinds { slug } => decide_kinds_next(c, slug, log),
        BodyV::LegacyUnion => legacy_union_next(c, log.rs),
        BodyV::RegionStatus => region_status_next(c, log.rs),
    }
}

/// The stretch of a body that has a time of its own: how many replies it begins after, and how long it
/// is given.
pub open spec fn body_region(b: BodyV) -> Option<(usize, u64)> {
    match b {
        BodyV::DecideKinds { .. } => Some((1usize, (DECIDE_MS - 20_000) as u64)),
        _ => None,
    }
}

impl Body {
    pub fn next(&self, c: &Run, log: &Log) -> (n: Next)
        ensures
            n@ == body_next(c@, self@, log@),
    {
        match self {
            Body::VolList => vol_list_body(c, log),
            Body::AdminStop { env } => admin_stop_body(c, env.as_str(), log),
            Body::AdminDelete => admin_delete_body(c, log),
            Body::Screens => screens_body(c, log),
            Body::Workloads => workloads_body(c, log),
            Body::AuditExport => audit_export_body(c, log),
            Body::DecideKinds { slug } => decide_kinds_body(c, slug.as_str(), log),
            Body::LegacyUnion => legacy_union_body(c, log),
            Body::RegionStatus => region_status_body(c, log),
        }
    }

    pub fn region(&self) -> (r: Option<(usize, u64)>)
        ensures
            r == body_region(self@),
    {
        match self {
            Body::DecideKinds { .. } => Some((1, DECIDE_MS - 20_000)),
            _ => None,
        }
    }
}

pub open spec fn vol_list_move(os: Seq<OutcomeV>) -> MoveV<BodyV> {
    one_move("vol.list"@, READ_MS, ""@, Some(BodyV::VolList), os)
}

/// `vol.list`.
pub fn vol_list(os: &Vec<Outcome>) -> (m: Move<Body>)
    ensures
        m@ == vol_list_move(outcomes(os@)),
{
    one("vol.list", READ_MS, "", Some(Body::VolList), os)
}

pub open spec fn admin_stop_environment_move(s: StateV, os: Seq<OutcomeV>) -> MoveV<BodyV> {
    one_move(
        "admin.stop.environment"@, ADMIN_ENV_MS, "no environment to stop"@,
        (match s.env_multi { Some(env) => Some(BodyV::AdminStop { env }), None => None }), os,
    )
}

/// `admin.stop.environment`.
pub fn admin_stop_environment(s: &State, os: &Vec<Outcome>) -> (m: Move<Body>)
    ensures
        m@ == admin_stop_environment_move(s@, outcomes(os@)),
{
    let body = match &s.env_multi {
        Some(env) => Some(Body::AdminStop { env: env.clone() }),
        None => None,
    };
    one("admin.stop.environment", ADMIN_ENV_MS, "no environment to stop", body, os)
}

pub open spec fn admin_delete_move(os: Seq<OutcomeV>) -> MoveV<BodyV> {
    one_move("admin.delete.workload"@, ADMIN_DELETE_MS, ""@, Some(BodyV::AdminDelete), os)
}

/// `admin.delete.workload`.
pub fn admin_delete(os: &Vec<Outcome>) -> (m: Move<Body>)
    ensures
        m@ == admin_delete_move(outcomes(os@)),
{
    one("admin.delete.workload", ADMIN_DELETE_MS, "", Some(Body::AdminDelete), os)
}

pub open spec fn screens_move(os: Seq<OutcomeV>) -> MoveV<BodyV> {
    one_move("admin.screens"@, READ_MS, ""@, Some(BodyV::Screens), os)
}

/// `admin.screens`.
pub fn screens(os: &Vec<Outcome>) -> (m: Move<Body>)
    ensures
        m@ == screens_move(outcomes(os@)),
{
    one("admin.screens", READ_MS, "", Some(Body::Screens), os)
}

pub open spec fn workloads_move(os: Seq<OutcomeV>) -> MoveV<BodyV> {
    one_move("admin.workloads.read"@, READ_MS, ""@, Some(BodyV::Workloads), os)
}

/// `admin.workloads.read`.
pub fn workloads(os: &Vec<Outcome>) -> (m: Move<Body>)
    ensures
        m@ == workloads_move(outcomes(os@)),
{
    one("admin.workloads.read", READ_MS, "", Some(Body::Workloads), os)
}

pub open spec fn audit_export_move(os: Seq<OutcomeV>) -> MoveV<BodyV> {
    one_move("audit.export"@, READ_MS, ""@, Some(BodyV::AuditExport), os)
}

/// `audit.export`.
pub fn audit_export(os: &Vec<Outcome>) -> (m: Move<Body>)
    ensures
        m@ == audit_export_move(outcomes(os@)),
{
    one("audit.export", READ_MS, "", Some(Body::AuditExport), os)
}

pub open spec fn decide_kinds_move(c: RunV, os: Seq<OutcomeV>) -> MoveV<BodyV> {
    one_move("req.decide.kinds"@, DECIDE_MS, ""@, Some(BodyV::DecideKinds { slug: named(c, "-rq"@) }), os)
}

/// `req.decide.kinds`.
pub fn decide_kinds(c: &Run, os: &Vec<Outcome>) -> (m: Move<Body>)
    ensures
        m@ == decide_kinds_move(c@, outcomes(os@)),
{
    one("req.decide.kinds", DECIDE_MS, "", Some(Body::DecideKinds { slug: name(c, "-rq") }), os)
}

pub open spec fn legacy_union_move(os: Seq<OutcomeV>) -> MoveV<BodyV> {
    one_move("req.legacy.union"@, READ_MS, ""@, Some(BodyV::LegacyUnion), os)
}

/// `req.legacy.union`.
pub fn legacy_union(os: &Vec<Outcome>) -> (m: Move<Body>)
    ensures
        m@ == legacy_union_move(outcomes(os@)),
{
    one("req.legacy.union", READ_MS, "", Some(Body::LegacyUnion), os)
}

pub open spec fn region_status_move(os: Seq<OutcomeV>) -> MoveV<BodyV> {
    one_move("region.status"@, READ_MS, ""@, Some(BodyV::RegionStatus), os)
}

/// `region.status`.
pub fn region_status(os: &Vec<Outcome>) -> (m: Move<Body>)
    ensures
        m@ == region_status_move(outcomes(os@)),
{
    one("region.status", READ_MS, "", Some(Body::RegionStatus), os)
}

/// Each of the nine ids is reported exactly once.
pub proof fn law_every_id_is_reported_once(c: RunV, s: StateV, os: Seq<OutcomeV>)
    ensures
        reports_exactly(|o: Seq<OutcomeV>| vol_list_move(o), os, seq!["vol.list"@], 1),
        reports_exactly(|o: Seq<OutcomeV>| admin_stop_environment_move(s, o), os, seq!["admin.stop.environment"@], 1),
        reports_exactly(|o: Seq<OutcomeV>| admin_delete_move(o), os, seq!["admin.delete.workload"@], 1),
        reports_exactly(|o: Seq<OutcomeV>| screens_move(o), os, seq!["admin.screens"@], 1),
        reports_exactly(|o: Seq<OutcomeV>| workloads_move(o), os, seq!["admin.workloads.read"@], 1),
        reports_exactly(|o: Seq<OutcomeV>| audit_export_move(o), os, seq!["audit.export"@], 1),
        reports_exactly(|o: Seq<OutcomeV>| decide_kinds_move(c, o), os, seq!["req.decide.kinds"@], 1),
        reports_exactly(|o: Seq<OutcomeV>| legacy_union_move(o), os, seq!["req.legacy.union"@], 1),
        reports_exactly(|o: Seq<OutcomeV>| region_status_move(o), os, seq!["region.status"@], 1),
    decreases os.len(),
{
    reveal_with_fuel(reports, 2);
    if os.len() > 1 {
        law_every_id_is_reported_once(c, s, os.drop_last());
    }
}

/// A denied request whose reason cannot be read back does not pass, whatever its state says.
pub proof fn law_a_deny_carries_its_reason(request: Doc, note: Seq<char>)
    ensures
        undenied(request, note) is None <==> text_of(request, "state"@) == Some("denied"@) && tells(request, note),
{
    reveal_strlit("denied");
    assert("denied"@.len() == 6);
    assert(Seq::<char>::empty().len() == 0);
}

/// A team that was made for the requests is taken back before the body is over.
pub proof fn law_the_request_team_is_taken_back(c: RunV, slug: Seq<char>, log: LogV)
    requires
        log.rs.len() > 0,
        call_error(log.rs[0]) is None,
        log.us.len() == 0,
    ensures
        !(decide_kinds_next(c, slug, log) is Pass),
        !(decide_kinds_next(c, slug, log) is Fail),
{
}

} // verus!
