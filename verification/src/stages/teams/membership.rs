//! A team's life as its members see it: made, invited into, a role set, a member removed, a workspace
//! of its own, and the team gone again with its namespace.

use vstd::prelude::*;

use crate::cluster::{name_of, object_name};
use crate::json::{
    Doc, Json, arr0, array_of, column, column_of, doc_str, docs, int_doc, lemma_docs, member, member2, obj1, obj2, obj5, opt_doc,
    rows_of, str_of, text_of, txt,
};
use crate::outside::{instant_of, json_of, parse, parse_instant, status_line, status_text};
use crate::reply::{
    call_error, call_failed, calls_in_turn, doc, doc_of, error, failed, is_success, lost_in, lost_within, made, made_full,
    made_full_of, made_of, not_read, object, object_of, raw, raw_of, success, take_calls, turns_view, unread,
};
use crate::run::{Run, RunV, api, api_at, name, named};
use crate::stages::teams::{QUICK_MS, QUOTA_GB, TEAM_WS_MS, refused, shared_repo, shared_repo_of, team_slug, team_slug_of, unrefused};
use crate::text::{
    cat2, cat3, cat4, cat5, dec, decimal, eq_ignore_ascii_case, first_texts, has_text, join, joined, same, same_letters, starts,
    starts_with, texts,
};
use crate::turn::{Move, MoveV, Outcome, OutcomeV, look, more, one, one_move, outcomes, passed, reports, reports_exactly, skip, step};
use crate::wait::{Wait, WaitV};
use crate::want::{Want, WantV};
use crate::wire::{
    Ask, AskV, Cluster, Kind, Log, LogV, Next, NextV, Reply, ReplyV, afterwards, also, and_on, deleting, end, erase, err_of,
    finally, get, getting, inside, link, opt, patch, patching, post, post_nothing, posting, posting_nothing, within,
};

verus! {

/// Why a team does not read back as itself.
pub open spec fn reads_otherwise(want: Seq<char>, r: ReplyV) -> Option<Seq<char>> {
    match doc_of(r) {
        Err(why) => Some(within("the team was created but cannot be read back"@, why)),
        Ok(d) => if text_of(d, "slug"@) == Some(want) { None } else { Some("the team reads back as something else"@) },
    }
}

fn read_otherwise(want: &str, r: &Reply) -> (o: Option<String>)
    ensures
        opt(o) == reads_otherwise(want@, r@),
{
    match doc(r) {
        Err(why) => Some(inside("the team was created but cannot be read back", why.as_str())),
        Ok(d) => {
            if d.is_at("slug", want) { None } else { Some("the team reads back as something else".to_owned()) }
        },
    }
}

/// A team that is made can be opened: an answer that it was made says nothing of that.
pub open spec fn create_next(c: RunV, slug: Seq<char>, rs: Seq<ReplyV>) -> NextV {
    link(
        rs, 0,
        posting(
            api_at(c, "/v1/teams"@), c.probe_jwt,
            Doc::Obj(seq![("slug"@, Doc::Str(slug)), ("name"@, Doc::Str("kloudlite slo probe"@))]),
        ),
        call_failed("could not create the team"@, rs[0]),
        link(rs, 1, getting(api_at(c, "/v1/teams/"@ + slug), c.probe_jwt), reads_otherwise(slug, rs[1]), NextV::Pass),
    )
}

fn create_body(c: &Run, slug: &str, log: &Log) -> (n: Next)
    ensures
        n@ == create_next(c@, slug@, log@.rs),
{
    if log.rs.len() <= 0 {
        return Next::Ask(post(
            api(c, "/v1/teams"), c.probe_jwt.as_str(), obj2("slug", txt(slug), "name", txt("kloudlite slo probe")),
        ));
    }
    if let Some(why) = failed("could not create the team", &log.rs[0]) {
        return Next::Fail(why);
    }
    if log.rs.len() <= 1 {
        return Next::Ask(get(api(c, cat2("/v1/teams/", slug).as_str()), c.probe_jwt.as_str()));
    }
    end(read_otherwise(slug, &log.rs[1]))
}

/// Whether the team is there, as the platform has it now.
pub open spec fn team_exists_next(c: RunV, slug: Seq<char>, rs: Seq<ReplyV>) -> NextV {
    link(rs, 0, getting(api_at(c, "/v1/teams/"@ + slug), c.probe_jwt), call_error(rs[0]), NextV::Pass)
}

pub fn team_exists_body(c: &Run, slug: &str, log: &Log) -> (n: Next)
    ensures
        n@ == team_exists_next(c@, slug@, log@.rs),
{
    if log.rs.len() <= 0 {
        return Next::Ask(get(api(c, cat2("/v1/teams/", slug).as_str()), c.probe_jwt.as_str()));
    }
    end(error(&log.rs[0]))
}

/// Whether the second user is in it, asked as them: a team answers its members only.
pub open spec fn is_member_next(c: RunV, slug: Seq<char>, rs: Seq<ReplyV>) -> NextV {
    link(rs, 0, getting(api_at(c, "/v1/teams/"@ + slug), c.other_jwt), call_error(rs[0]), NextV::Pass)
}

pub fn is_member_body(c: &Run, slug: &str, log: &Log) -> (n: Next)
    ensures
        n@ == is_member_next(c@, slug@, log@.rs),
{
    if log.rs.len() <= 0 {
        return Next::Ask(get(api(c, cat2("/v1/teams/", slug).as_str()), c.other_jwt.as_str()));
    }
    end(error(&log.rs[0]))
}

/// Why a preview is not that of an invitation into the team.
pub open spec fn previews_otherwise(want: Seq<char>, r: ReplyV) -> Option<Seq<char>> {
    match doc_of(r) {
        Err(why) => Some(within("the invited person cannot preview it"@, why)),
        Ok(d) => if text_of(d, "team"@) == Some(want) { None } else { Some("the preview names a different team"@) },
    }
}

fn previewed_otherwise(want: &str, r: &Reply) -> (o: Option<String>)
    ensures
        opt(o) == previews_otherwise(want@, r@),
{
    match doc(r) {
        Err(why) => Some(inside("the invited person cannot preview it", why.as_str())),
        Ok(d) => {
            if d.is_at("team", want) { None } else { Some("the preview names a different team".to_owned()) }
        },
    }
}

/// An invitation is previewed and accepted once, and refused the second time: its token travels in
/// a url and an email.
pub open spec fn invite_accept_next(c: RunV, slug: Seq<char>, rs: Seq<ReplyV>) -> NextV {
    let token = made_full("could not invite"@, "token"@, "the invitation carried no token"@, rs[0])->Ok_0;
    link(
        rs, 0,
        posting(
            api_at(c, "/v1/teams/"@ + slug + "/invites"@), c.probe_jwt,
            Doc::Obj(seq![("email"@, Doc::Str(c.other_email)), ("role"@, Doc::Str("member"@))]),
        ),
        err_of(made_full("could not invite"@, "token"@, "the invitation carried no token"@, rs[0])),
        link(
            rs, 1, getting(api_at(c, "/v1/invites/"@ + token), c.other_jwt), previews_otherwise(slug, rs[1]),
            link(
                rs, 2,
                posting(api_at(c, "/v1/invites/"@ + token + "/accept"@), c.other_jwt, Doc::Null),
                call_failed("the invitation was not accepted"@, rs[2]),
                link(
                    rs, 3,
                    posting_nothing(api_at(c, "/v1/invites/"@ + token + "/accept"@), c.other_jwt),
                    unrefused("a second accept"@, rs[3]), NextV::Pass,
                ),
            ),
        ),
    )
}

fn invite_accept_body(c: &Run, slug: &str, log: &Log) -> (n: Next)
    ensures
        n@ == invite_accept_next(c@, slug@, log@.rs),
{
    if log.rs.len() <= 0 {
        return Next::Ask(post(
            api(c, cat3("/v1/teams/", slug, "/invites").as_str()), c.probe_jwt.as_str(),
            obj2("email", txt(c.other_email.as_str()), "role", txt("member")),
        ));
    }
    let token = match made_full_of("could not invite", "token", "the invitation carried no token", &log.rs[0]) {
        Err(why) => {
            return Next::Fail(why);
        },
        Ok(t) => t,
    };
    if log.rs.len() <= 1 {
        return Next::Ask(get(api(c, cat2("/v1/invites/", token.as_str()).as_str()), c.other_jwt.as_str()));
    }
    if let Some(why) = previewed_otherwise(slug, &log.rs[1]) {
        return Next::Fail(why);
    }
    if log.rs.len() <= 2 {
        return Next::Ask(post(
            api(c, cat3("/v1/invites/", token.as_str(), "/accept").as_str()), c.other_jwt.as_str(), Json::Null,
        ));
    }
    if let Some(why) = failed("the invitation was not accepted", &log.rs[2]) {
        return Next::Fail(why);
    }
    if log.rs.len() <= 3 {
        return Next::Ask(post_nothing(api(c, cat3("/v1/invites/", token.as_str(), "/accept").as_str()), c.other_jwt.as_str()));
    }
    end(refused("a second accept", &log.rs[3]))
}

/// A member whose email is `email`, in whatever case.
pub open spec fn is_them(row: Doc, email: Seq<char>) -> bool {
    match text_of(row, "email"@) {
        Some(t) => same_letters(t, email),
        None => false,
    }
}

/// The first member with that email.
pub open spec fn member_of(rows: Seq<Doc>, email: Seq<char>) -> Option<Doc>
    decreases rows.len(),
{
    if rows.len() == 0 {
        None
    } else if is_them(rows[0], email) {
        Some(rows[0])
    } else {
        member_of(rows.skip(1), email)
    }
}

/// The role one member holds.
pub open spec fn role_in(team: Doc, email: Seq<char>) -> Option<Seq<char>> {
    match member_of(rows_of(member(team, "members"@)), email) {
        Some(row) => text_of(row, "role"@),
        None => None,
    }
}

fn find_member<'a>(rows: &'a Vec<Json>, email: &str) -> (r: Option<&'a Json>)
    ensures
        opt_doc(r) == member_of(docs(rows@), email@),
{
    let ghost all = docs(rows@);
    proof {
        lemma_docs(rows@);
        assert(all.skip(0) =~= all);
    }
    let mut i: usize = 0;
    while i < rows.len()
        invariant
            i <= rows@.len(),
            all == docs(rows@),
            all.len() == rows@.len(),
            forall|k: int| 0 <= k < rows@.len() ==> #[trigger] all[k] == rows@[k]@,
            member_of(all, email@) == member_of(all.skip(i as int), email@),
        decreases rows.len() - i,
    {
        proof {
            assert(all.skip(i as int)[0] == rows@[i as int]@);
            assert(all.skip(i as int).skip(1) =~= all.skip(i + 1));
        }
        if let Some(t) = rows[i].text_at("email") {
            if eq_ignore_ascii_case(t.as_str(), email) {
                return Some(&rows[i]);
            }
        }
        i = i + 1;
    }
    None
}

pub fn role_of(team: &Json, email: &str) -> (r: Option<String>)
    ensures
        opt(r) == role_in(team@, email@),
{
    match array_of(team.get("members")) {
        None => None,
        Some(rows) => match find_member(rows, email) {
            Some(row) => row.text_at("role"),
            None => None,
        },
    }
}

/// Why a team does not show them as an admin.
pub open spec fn no_admin(email: Seq<char>, r: ReplyV) -> Option<Seq<char>> {
    match doc_of(r) {
        Err(why) => Some(why),
        Ok(d) => if role_in(d, email) == Some("admin"@) {
            None
        } else {
            Some("the profile still does not show them as an admin"@)
        },
    }
}

fn not_admin(email: &str, r: &Reply) -> (o: Option<String>)
    ensures
        opt(o) == no_admin(email@, r@),
{
    match doc(r) {
        Err(why) => Some(why),
        Ok(d) => {
            let admin = match role_of(&d, email) {
                Some(role) => same(role.as_str(), "admin"),
                None => false,
            };
            if admin { None } else { Some("the profile still does not show them as an admin".to_owned()) }
        },
    }
}

/// A role that is set is the one the team shows.
pub open spec fn role_set_next(c: RunV, slug: Seq<char>, rs: Seq<ReplyV>) -> NextV {
    link(
        rs, 0,
        patching(
            api_at(c, "/v1/teams/"@ + slug + "/members/"@ + c.other_email), c.probe_jwt,
            Doc::Obj(seq![("role"@, Doc::Str("admin"@))]),
        ),
        call_failed("could not change the role"@, rs[0]),
        link(rs, 1, getting(api_at(c, "/v1/teams/"@ + slug), c.probe_jwt), no_admin(c.other_email, rs[1]), NextV::Pass),
    )
}

fn role_set_body(c: &Run, slug: &str, log: &Log) -> (n: Next)
    ensures
        n@ == role_set_next(c@, slug@, log@.rs),
{
    if log.rs.len() <= 0 {
        return Next::Ask(patch(
            api(c, cat4("/v1/teams/", slug, "/members/", c.other_email.as_str()).as_str()), c.probe_jwt.as_str(),
            obj1("role", txt("admin")),
        ));
    }
    if let Some(why) = failed("could not change the role", &log.rs[0]) {
        return Next::Fail(why);
    }
    if log.rs.len() <= 1 {
        return Next::Ask(get(api(c, cat2("/v1/teams/", slug).as_str()), c.probe_jwt.as_str()));
    }
    end(not_admin(c.other_email.as_str(), &log.rs[1]))
}

/// Why a workspace has no pod in the namespace it belongs in.
pub open spec fn podless(ns: Seq<char>, r: ReplyV) -> Option<Seq<char>> {
    match raw_of(r) {
        Err(why) => Some("could not read "@ + ns + ": "@ + why),
        Ok((status, text)) => if is_success(status) {
            None
        } else if status == 404 {
            Some("the workspace is ready but has no pod in "@ + ns)
        } else {
            Some("could not read "@ + ns + ": "@ + text)
        },
    }
}

pub fn lacks_pod(ns: &str, r: &Reply) -> (o: Option<String>)
    ensures
        opt(o) == podless(ns@, r@),
{
    match raw(r) {
        Err(why) => Some(cat4("could not read ", ns, ": ", why.as_str())),
        Ok((status, text)) => {
            if success(status) {
                None
            } else if status == 404 {
                Some(cat2("the workspace is ready but has no pod in ", ns))
            } else {
                Some(cat4("could not read ", ns, ": ", text.as_str()))
            }
        },
    }
}

pub open spec fn pod_read_next(c: RunV, ns: Seq<char>, id: Seq<char>, rs: Seq<ReplyV>) -> NextV {
    link(rs, 2, AskV::Read { cluster: Cluster::Fleet, kind: Kind::Pod, ns, name: id }, podless(ns, rs[2]), NextV::Pass)
}

fn pod_read_body(c: &Run, ns: &str, id: &str, log: &Log) -> (n: Next)
    ensures
        n@ == pod_read_next(c@, ns@, id@, log@.rs),
{
    if log.rs.len() <= 2 {
        return Next::Ask(Ask::Read { cluster: Cluster::Fleet, kind: Kind::Pod, ns: ns.to_owned(), name: id.to_owned() });
    }
    end(lacks_pod(ns, &log.rs[2]))
}

/// A workspace created under a team lands in the team's namespace and starts there. Once its pod
/// has been looked for it is stopped: it holds a good part of a node.
pub open spec fn workspace_next(c: RunV, slug: Seq<char>, ns: Seq<char>, log: LogV) -> NextV {
    let id = made("could not create the team workspace"@, "id"@, "the answer carried no workspace id"@, log.rs[0])->Ok_0;
    link(
        log.rs, 0,
        posting(
            api_at(c, "/v1/workspaces"@), c.probe_jwt,
            Doc::Obj(seq![
                ("team"@, Doc::Str(slug)),
                ("name"@, Doc::Str(named(c, "-teamws"@))),
                ("region"@, Doc::Str(c.region)),
                ("quota_gb"@, Doc::Int(QUOTA_GB as int)),
                ("packages"@, Doc::Arr(seq![])),
            ]),
        ),
        err_of(made("could not create the team workspace"@, "id"@, "the answer carried no workspace id"@, log.rs[0])),
        link(
            log.rs, 1,
            AskV::Wait(WaitV::Doc {
                url: api_at(c, "/v1/workspaces/"@ + id),
                token: c.probe_jwt,
                want: WantV::Field { key: "state"@, value: "ready"@ },
                cap_ms: TEAM_WS_MS,
            }),
            lost_in("the team workspace never became ready"@, log.rs[1]),
            if !starts(ns, "wt-"@) {
                NextV::Fail("a team workspace's namespace is "@ + ns + ", not a team one"@)
            } else {
                finally(
                    log, pod_read_next(c, ns, id, log.rs),
                    posting_nothing(api_at(c, "/v1/workspaces/"@ + id + "/stop"@), c.probe_jwt),
                )
            },
        ),
    )
}

fn workspace_body(c: &Run, slug: &str, ns: &str, log: &Log) -> (n: Next)
    ensures
        n@ == workspace_next(c@, slug@, ns@, log@),
{
    if log.rs.len() <= 0 {
        return Next::Ask(post(
            api(c, "/v1/workspaces"), c.probe_jwt.as_str(),
            obj5(
                "team", txt(slug), "name", txt(name(c, "-teamws").as_str()), "region", txt(c.region.as_str()), "quota_gb",
                int_doc(QUOTA_GB), "packages", arr0(),
            ),
        ));
    }
    let id = match made_of("could not create the team workspace", "id", "the answer carried no workspace id", &log.rs[0]) {
        Err(why) => {
            return Next::Fail(why);
        },
        Ok(t) => t,
    };
    if log.rs.len() <= 1 {
        return Next::Ask(Ask::Wait(Wait::Doc {
            url: api(c, cat2("/v1/workspaces/", id.as_str()).as_str()),
            token: c.probe_jwt.clone(),
            want: Want::Field { key: "state".to_owned(), value: "ready".to_owned() },
            cap_ms: TEAM_WS_MS,
        }));
    }
    if let Some(why) = lost_within("the team workspace never became ready", &log.rs[1]) {
        return Next::Fail(why);
    }
    if !starts_with(ns, "wt-") {
        return Next::Fail(cat3("a team workspace's namespace is ", ns, ", not a team one"));
    }
    afterwards(
        log, pod_read_body(c, ns, id.as_str(), log),
        post_nothing(api(c, cat3("/v1/workspaces/", id.as_str(), "/stop").as_str()), c.probe_jwt.as_str()),
    )
}

/// The last of a removal: the credential a member that was removed asked for. One that was issued
/// after all is taken back, as far as that can be done.
pub open spec fn unmintable(c: RunV, k: nat, rs: Seq<ReplyV>, slug: Seq<char>) -> NextV {
    if rs.len() <= k {
        NextV::Ask(
            posting(
                api_at(c, "/v1/tokens"@), c.other_jwt,
                Doc::Obj(seq![("owner"@, Doc::Str(slug)), ("name"@, Doc::Str("after-removal"@))]),
            ),
        )
    } else {
        match raw_of(rs[k as int]) {
            Err(why) => NextV::Fail(why),
            Ok((status, body)) => if status == 401 || status == 403 || status == 404 {
                NextV::Pass
            } else {
                let end = NextV::Fail("a removed member could still mint a team credential: "@ + status_line(status));
                match issued_id(body) {
                    None => end,
                    Some(id) => also(rs, k + 1, deleting(api_at(c, "/v1/tokens/"@ + id), c.other_jwt), end),
                }
            },
        }
    }
}

/// The id of a credential that was issued.
pub open spec fn issued_id(body: Seq<char>) -> Option<Seq<char>> {
    match json_of(body) {
        None => None,
        Some(d) => text_of(d, "_id"@),
    }
}

fn mint_refused(c: &Run, k: usize, log: &Log, slug: &str) -> (n: Next)
    requires
        k < 10,
    ensures
        n@ == unmintable(c@, k as nat, log@.rs, slug@),
{
    if log.rs.len() <= k {
        let body = obj2("owner", txt(slug), "name", txt("after-removal"));
        return Next::Ask(post(api(c, "/v1/tokens"), c.other_jwt.as_str(), body));
    }
    match raw(&log.rs[k]) {
        Err(why) => Next::Fail(why),
        Ok((status, body)) => {
            if status == 401 || status == 403 || status == 404 {
                return Next::Pass;
            }
            let end = Next::Fail(cat2("a removed member could still mint a team credential: ", status_text(status).as_str()));
            let id = match parse(body.as_str()) {
                None => None,
                Some(d) => d.text_at("_id"),
            };
            match id {
                None => end,
                Some(id) => {
                    if log.rs.len() <= k + 1 {
                        Next::Ask(erase(api(c, cat2("/v1/tokens/", id.as_str()).as_str()), c.other_jwt.as_str()))
                    } else {
                        end
                    }
                },
            }
        },
    }
}

/// A member that is removed loses what membership is asked for on every request: the read of the
/// team's repository, where they had it, and a new credential under the team. A credential they
/// minted before is the team's, and stays.
pub open spec fn member_remove_next(c: RunV, slug: Seq<char>, rs: Seq<ReplyV>) -> NextV {
    let refs = getting(api_at(c, "/api/"@ + slug + "/"@ + shared_repo_of(c) + "/refs"@), c.other_jwt);
    also(
        rs, 0, refs,
        link(
            rs, 1, deleting(api_at(c, "/v1/teams/"@ + slug + "/members/"@ + c.other_email), c.probe_jwt),
            call_failed("could not remove the member"@, rs[1]),
            if call_error(rs[0]) is None {
                link(rs, 2, refs, unrefused("a removed member's read"@, rs[2]), unmintable(c, 3, rs, slug))
            } else {
                unmintable(c, 2, rs, slug)
            },
        ),
    )
}

fn member_remove_body(c: &Run, slug: &str, log: &Log) -> (n: Next)
    ensures
        n@ == member_remove_next(c@, slug@, log@.rs),
{
    let url = api(c, cat5("/api/", slug, "/", shared_repo(c).as_str(), "/refs").as_str());
    if log.rs.len() <= 0 {
        return Next::Ask(get(url, c.other_jwt.as_str()));
    }
    if log.rs.len() <= 1 {
        let member = cat4("/v1/teams/", slug, "/members/", c.other_email.as_str());
        return Next::Ask(erase(api(c, member.as_str()), c.probe_jwt.as_str()));
    }
    if let Some(why) = failed("could not remove the member", &log.rs[1]) {
        return Next::Fail(why);
    }
    if error(&log.rs[0]).is_some() {
        return mint_refused(c, 2, log, slug);
    }
    if log.rs.len() <= 2 {
        return Next::Ask(get(url, c.other_jwt.as_str()));
    }
    if let Some(why) = refused("a removed member's read", &log.rs[2]) {
        return Next::Fail(why);
    }
    mint_refused(c, 3, log, slug)
}

pub open spec fn drop_repo_next(c: RunV, slug: Seq<char>, rs: Seq<ReplyV>) -> NextV {
    also(rs, 0, deleting(api_at(c, "/v1/repos/"@ + slug + "/"@ + shared_repo_of(c)), c.probe_jwt), NextV::Pass)
}

fn drop_repo_body(c: &Run, slug: &str, log: &Log) -> (n: Next)
    ensures
        n@ == drop_repo_next(c@, slug@, log@.rs),
{
    if log.rs.len() <= 0 {
        return Next::Ask(erase(api(c, cat4("/v1/repos/", slug, "/", shared_repo(c).as_str()).as_str()), c.probe_jwt.as_str()));
    }
    Next::Pass
}

/// The workspaces a team still has.
pub open spec fn team_ids(r: ReplyV) -> Seq<Seq<char>> {
    match doc_of(r) {
        Err(_) => seq![],
        Ok(d) => column(rows_of(Some(d)), "id"@),
    }
}

pub fn team_workspaces(r: &Reply) -> (ids: Vec<String>)
    ensures
        texts(ids@) == team_ids(r@),
{
    let none: Vec<String> = Vec::new();
    proof {
        assert(texts(none@) =~= Seq::<Seq<char>>::empty());
    }
    match doc(r) {
        Err(_) => none,
        Ok(d) => match array_of(Some(&d)) {
            Some(rows) => column_of(rows, "id"),
            None => none,
        },
    }
}

/// The deletes of some workspaces, each in its context.
pub open spec fn drops_of(c: RunV, ids: Seq<Seq<char>>) -> Seq<(AskV, Seq<char>)> {
    Seq::new(
        ids.len(),
        |i: int| (deleting(api_at(c, "/v1/workspaces/"@ + ids[i]), c.probe_jwt), "could not delete the team workspace "@ + ids[i]),
    )
}

pub fn drops(c: &Run, ids: &Vec<String>) -> (r: Vec<(Ask, String)>)
    ensures
        turns_view(r@) == drops_of(c@, texts(ids@)),
{
    let mut r: Vec<(Ask, String)> = Vec::new();
    let mut i: usize = 0;
    while i < ids.len()
        invariant
            i <= ids@.len(),
            r@.len() == i,
            forall|k: int| 0 <= k < i ==> (#[trigger] r@[k]).0@ == drops_of(c@, texts(ids@))[k].0 && r@[k].1@ == drops_of(c@, texts(ids@))[k].1,
        decreases ids.len() - i,
    {
        let url = api(c, cat2("/v1/workspaces/", ids[i].as_str()).as_str());
        r.push((erase(url, c.probe_jwt.as_str()), cat2("could not delete the team workspace ", ids[i].as_str())));
        i = i + 1;
    }
    proof {
        assert(turns_view(r@) =~= drops_of(c@, texts(ids@)));
    }
    r
}

/// A team goes once its workspaces are gone: they are billed to it and listed only under it, so a
/// team deleted over one would strand what nothing could find again. Then its slug is refused.
pub open spec fn delete_next(c: RunV, slug: Seq<char>, rs: Seq<ReplyV>) -> NextV {
    let list = api_at(c, "/v1/workspaces?team="@ + slug);
    let team = api_at(c, "/v1/teams/"@ + slug);
    let n = team_ids(rs[0]).len();
    link(
        rs, 0, getting(list, c.probe_jwt), call_failed("could not list the team's workspaces"@, rs[0]),
        and_on(
            calls_in_turn(drops_of(c, team_ids(rs[0])), rs.skip(1), 0),
            link(
                rs, n + 1,
                AskV::Wait(WaitV::Doc { url: list, token: c.probe_jwt, want: WantV::Empty, cap_ms: c.team_drain_ms }),
                lost_in("the team's workspaces never went"@, rs[n as int + 1]),
                link(
                    rs, n + 2, deleting(team, c.probe_jwt), call_failed("could not delete the team"@, rs[n as int + 2]),
                    link(rs, n + 3, getting(team, c.probe_jwt), unrefused("a deleted team"@, rs[n as int + 3]), NextV::Pass),
                ),
            ),
        ),
    )
}

fn delete_body(c: &Run, slug: &str, log: &Log) -> (n: Next)
    ensures
        n@ == delete_next(c@, slug@, log@.rs),
{
    let list = api(c, cat2("/v1/workspaces?team=", slug).as_str());
    let team = api(c, cat2("/v1/teams/", slug).as_str());
    if log.rs.len() <= 0 {
        return Next::Ask(get(list, c.probe_jwt.as_str()));
    }
    if let Some(why) = failed("could not list the team's workspaces", &log.rs[0]) {
        return Next::Fail(why);
    }
    let asks = drops(c, &team_workspaces(&log.rs[0]));
    proof {
        assert(turns_view(asks@).len() == asks@.len());
    }
    let n: usize = asks.len();
    match take_calls(asks, &log.rs, 1) {
        Next::Pass => {},
        other => {
            return other;
        },
    }
    let had: usize = log.rs.len() - 1 - n;
    if had == 0 {
        return Next::Ask(Ask::Wait(Wait::Doc { url: list, token: c.probe_jwt.clone(), want: Want::Empty, cap_ms: c.team_drain_ms }));
    }
    if let Some(why) = lost_within("the team's workspaces never went", &log.rs[n + 1]) {
        return Next::Fail(why);
    }
    if had == 1 {
        return Next::Ask(erase(team, c.probe_jwt.as_str()));
    }
    if let Some(why) = failed("could not delete the team", &log.rs[n + 2]) {
        return Next::Fail(why);
    }
    if had == 2 {
        return Next::Ask(get(team, c.probe_jwt.as_str()));
    }
    end(refused("a deleted team", &log.rs[n + 3]))
}

/// How many beats a namespace may outlive what used it: it is a candidate once it is a beat old, the
/// beat that takes it away is up to a beat later, and one more is slack.
pub const GRACE_BEATS: u64 = 3;

/// The seconds a namespace has been there; none where it does not say.
pub open spec fn age_of(row: Doc, now: int) -> int {
    match doc_str(member2(row, "metadata"@, "creationTimestamp"@)) {
        None => 0,
        Some(t) => match instant_of(t) {
            None => 0,
            Some((secs, _)) => now - secs,
        },
    }
}

/// A namespace of a team that nothing resolves to any more. One that is already going is the
/// cleanup at work.
pub open spec fn leaked(row: Doc, keep: Seq<Seq<char>>, now: int, beat_secs: u64) -> bool {
    starts(name_of(row), "wt-"@) && !keep.contains(name_of(row)) && age_of(row, now) > GRACE_BEATS * beat_secs && doc_str(
        member2(row, "status"@, "phase"@),
    ) != Some("Terminating"@)
}

/// The names of those that leaked, in order.
pub open spec fn leaks(rows: Seq<Doc>, keep: Seq<Seq<char>>, now: int, beat_secs: u64) -> Seq<Seq<char>>
    decreases rows.len(),
{
    if rows.len() == 0 {
        seq![]
    } else {
        let before = leaks(rows.drop_last(), keep, now, beat_secs);
        if leaked(rows.last(), keep, now, beat_secs) { before.push(name_of(rows.last())) } else { before }
    }
}

fn has_leaked(row: &Json, keep: &Vec<String>, now: i64, beat_secs: u64) -> (r: bool)
    ensures
        r == leaked(row@, texts(keep@), now as int, beat_secs),
{
    let name = object_name(row);
    let age: i128 = match str_of(row.get2("metadata", "creationTimestamp")) {
        None => 0,
        Some(t) => match parse_instant(t.as_str()) {
            None => 0,
            Some((secs, _)) => now as i128 - secs as i128,
        },
    };
    let going = match str_of(row.get2("status", "phase")) {
        Some(t) => same(t.as_str(), "Terminating"),
        None => false,
    };
    starts_with(name.as_str(), "wt-") && !has_text(keep, name.as_str()) && age > GRACE_BEATS as i128 * beat_secs as i128 && !going
}

pub fn leaked_names(rows: &Vec<Json>, keep: &Vec<String>, now: i64, beat_secs: u64) -> (r: Vec<String>)
    ensures
        texts(r@) == leaks(docs(rows@), texts(keep@), now as int, beat_secs),
{
    let ghost all = docs(rows@);
    let mut r: Vec<String> = Vec::new();
    proof {
        lemma_docs(rows@);
        assert(all.take(0) =~= Seq::<Doc>::empty());
        assert(texts(r@) =~= Seq::<Seq<char>>::empty());
    }
    let mut i: usize = 0;
    while i < rows.len()
        invariant
            i <= rows@.len(),
            all.len() == rows@.len(),
            forall|k: int| 0 <= k < rows@.len() ==> #[trigger] all[k] == rows@[k]@,
            texts(r@) == leaks(all.take(i as int), texts(keep@), now as int, beat_secs),
        decreases rows.len() - i,
    {
        proof {
            assert(all.take(i + 1).drop_last() =~= all.take(i as int));
            assert(all.take(i + 1).last() == rows@[i as int]@);
        }
        let ghost before = r@;
        if has_leaked(&rows[i], keep, now, beat_secs) {
            r.push(object_name(&rows[i]));
            proof {
                assert(texts(r@) =~= texts(before).push(name_of(rows@[i as int]@)));
            }
        }
        i = i + 1;
    }
    proof {
        assert(all.take(all.len() as int) =~= all);
    }
    r
}

/// Why the fleet's namespaces are not all in use. The namespace each workspace resolves to stands
/// with it in the listing, as `namespace`.
pub open spec fn unreaped(now: i64, beat_secs: u64, workspaces: ReplyV, r: ReplyV) -> Option<Seq<char>> {
    match object_of(r) {
        Err(why) => Some(within("could not list the namespaces"@, why)),
        Ok(d) => {
            let keep = match object_of(workspaces) {
                Ok(w) => column(rows_of(Some(w)), "namespace"@),
                Err(_) => seq![],
            };
            let found = leaks(rows_of(Some(d)), keep, now as int, beat_secs);
            if found.len() == 0 {
                None
            } else {
                Some(
                    dec(found.len()) + " team namespace(s) nothing uses: "@ + joined(if found.len() <= 4 { found } else { found.take(4) }, ", "@),
                )
            }
        },
    }
}

fn not_reaped(now: i64, beat_secs: u64, workspaces: &Reply, r: &Reply) -> (o: Option<String>)
    ensures
        opt(o) == unreaped(now, beat_secs, workspaces@, r@),
{
    match object(r) {
        Err(why) => Some(inside("could not list the namespaces", why.as_str())),
        Ok(d) => {
            let none: Vec<String> = Vec::new();
            proof {
                assert(texts(none@) =~= Seq::<Seq<char>>::empty());
            }
            let keep: Vec<String> = match object(workspaces) {
                Ok(w) => match array_of(Some(&w)) {
                    Some(rows) => column_of(rows, "namespace"),
                    None => none,
                },
                Err(_) => none,
            };
            let found = match array_of(Some(&d)) {
                Some(rows) => leaked_names(rows, &keep, now, beat_secs),
                None => {
                    let empty: Vec<String> = Vec::new();
                    proof {
                        assert(texts(empty@) =~= leaks(rows_of(Some(d@)), texts(keep@), now as int, beat_secs));
                    }
                    empty
                },
            };
            proof {
                assert(texts(found@).len() == found@.len());
            }
            if found.len() == 0 {
                return None;
            }
            let shown = first_texts(&found, 4);
            Some(cat3(decimal(found.len() as u64).as_str(), " team namespace(s) nothing uses: ", join(&shown, ", ").as_str()))
        },
    }
}

/// No namespace of a team outlives the workspaces that used it, anywhere in the fleet: a leak has
/// one source or another, and two lists find it.
pub open spec fn namespace_reaped_next(c: RunV, now: i64, rs: Seq<ReplyV>) -> NextV {
    link(
        rs, 0,
        AskV::List { cluster: Cluster::Fleet, kind: Kind::Workspace, ns: ""@ }, unread("could not list the workspaces"@, rs[0]),
        link(
            rs, 1,
            AskV::List { cluster: Cluster::Fleet, kind: Kind::Namespace, ns: ""@ }, unreaped(now, c.keys_resync_secs, rs[0], rs[1]),
            NextV::Pass,
        ),
    )
}

fn namespace_reaped_body(c: &Run, now: i64, log: &Log) -> (n: Next)
    ensures
        n@ == namespace_reaped_next(c@, now, log@.rs),
{
    if log.rs.len() <= 0 {
        return Next::Ask(Ask::List { cluster: Cluster::Fleet, kind: Kind::Workspace, ns: "".to_owned() });
    }
    if let Some(why) = not_read("could not list the workspaces", &log.rs[0]) {
        return Next::Fail(why);
    }
    if log.rs.len() <= 1 {
        return Next::Ask(Ask::List { cluster: Cluster::Fleet, kind: Kind::Namespace, ns: "".to_owned() });
    }
    end(not_reaped(now, c.keys_resync_secs, &log.rs[0], &log.rs[1]))
}

pub enum Body {
    Create { slug: String },
    TeamExists { slug: String },
    IsMember { slug: String },
    InviteAccept { slug: String },
    RoleSet { slug: String },
    Workspace { slug: String, ns: String },
    MemberRemove { slug: String },
    DropRepo { slug: String },
    Delete { slug: String },
    NamespaceReaped { now: i64 },
}

pub enum BodyV {
    Create { slug: Seq<char> },
    TeamExists { slug: Seq<char> },
    IsMember { slug: Seq<char> },
    InviteAccept { slug: Seq<char> },
    RoleSet { slug: Seq<char> },
    Workspace { slug: Seq<char>, ns: Seq<char> },
    MemberRemove { slug: Seq<char> },
    DropRepo { slug: Seq<char> },
    Delete { slug: Seq<char> },
    NamespaceReaped { now: i64 },
}

impl View for Body {
    type V = BodyV;

    open spec fn view(&self) -> BodyV {
        match self {
            Body::Create { slug } => BodyV::Create { slug: slug@ },
            Body::TeamExists { slug } => BodyV::TeamExists { slug: slug@ },
            Body::IsMember { slug } => BodyV::IsMember { slug: slug@ },
            Body::InviteAccept { slug } => BodyV::InviteAccept { slug: slug@ },
            Body::RoleSet { slug } => BodyV::RoleSet { slug: slug@ },
            Body::Workspace { slug, ns } => BodyV::Workspace { slug: slug@, ns: ns@ },
            Body::MemberRemove { slug } => BodyV::MemberRemove { slug: slug@ },
            Body::DropRepo { slug } => BodyV::DropRepo { slug: slug@ },
            Body::Delete { slug } => BodyV::Delete { slug: slug@ },
            Body::NamespaceReaped { now } => BodyV::NamespaceReaped { now: *now },
        }
    }
}

/// What a body does next.
pub open spec fn body_next(c: RunV, b: BodyV, log: LogV) -> NextV {
    match b {
        BodyV::Create { slug } => create_next(c, slug, log.rs),
        BodyV::TeamExists { slug } => team_exists_next(c, slug, log.rs),
        BodyV::IsMember { slug } => is_member_next(c, slug, log.rs),
        BodyV::InviteAccept { slug } => invite_accept_next(c, slug, log.rs),
        BodyV::RoleSet { slug } => role_set_next(c, slug, log.rs),
        BodyV::Workspace { slug, ns } => workspace_next(c, slug, ns, log),
        BodyV::MemberRemove { slug } => member_remove_next(c, slug, log.rs),
        BodyV::DropRepo { slug } => drop_repo_next(c, slug, log.rs),
        BodyV::Delete { slug } => delete_next(c, slug, log.rs),
        BodyV::NamespaceReaped { now } => namespace_reaped_next(c, now, log.rs),
    }
}

impl Body {
    pub fn next(&self, c: &Run, log: &Log) -> (n: Next)
        ensures
            n@ == body_next(c@, self@, log@),
    {
        match self {
            Body::Create { slug } => create_body(c, slug.as_str(), log),
            Body::TeamExists { slug } => team_exists_body(c, slug.as_str(), log),
            Body::IsMember { slug } => is_member_body(c, slug.as_str(), log),
            Body::InviteAccept { slug } => invite_accept_body(c, slug.as_str(), log),
            Body::RoleSet { slug } => role_set_body(c, slug.as_str(), log),
            Body::Workspace { slug, ns } => workspace_body(c, slug.as_str(), ns.as_str(), log),
            Body::MemberRemove { slug } => member_remove_body(c, slug.as_str(), log),
            Body::DropRepo { slug } => drop_repo_body(c, slug.as_str(), log),
            Body::Delete { slug } => delete_body(c, slug.as_str(), log),
            Body::NamespaceReaped { now } => namespace_reaped_body(c, *now, log),
        }
    }
}

pub open spec fn create_move(c: RunV, os: Seq<OutcomeV>) -> MoveV<BodyV> {
    one_move("team.create"@, QUICK_MS, ""@, Some(BodyV::Create { slug: team_slug_of(c) }), os)
}

/// `team.create`.
pub fn create(c: &Run, os: &Vec<Outcome>) -> (m: Move<Body>)
    ensures
        m@ == create_move(c@, outcomes(os@)),
{
    one("team.create", QUICK_MS, "", Some(Body::Create { slug: team_slug(c) }), os)
}

pub open spec fn invite_accept_move(c: RunV, os: Seq<OutcomeV>) -> MoveV<BodyV> {
    let id = "team.invite.accept"@;
    if os.len() == 0 {
        MoveV::Look { body: BodyV::TeamExists { slug: team_slug_of(c) } }
    } else if !passed(os[0]) {
        if os.len() == 1 { MoveV::Skip { id, why: "the team was never created"@ } } else { MoveV::End }
    } else if os.len() == 1 {
        MoveV::Step { id, ceiling_ms: QUICK_MS, body: BodyV::InviteAccept { slug: team_slug_of(c) } }
    } else {
        MoveV::End
    }
}

/// `team.invite.accept`.
pub fn invite_accept(c: &Run, os: &Vec<Outcome>) -> (m: Move<Body>)
    ensures
        m@ == invite_accept_move(c@, outcomes(os@)),
{
    let id = "team.invite.accept";
    if os.len() == 0 {
        look(Body::TeamExists { slug: team_slug(c) })
    } else if !os[0].passed() {
        if os.len() == 1 { skip(id, "the team was never created") } else { Move::End }
    } else if os.len() == 1 {
        step(id, QUICK_MS, Body::InviteAccept { slug: team_slug(c) })
    } else {
        Move::End
    }
}

pub open spec fn role_set_move(c: RunV, os: Seq<OutcomeV>) -> MoveV<BodyV> {
    let id = "team.role.set"@;
    if os.len() == 0 {
        MoveV::Look { body: BodyV::IsMember { slug: team_slug_of(c) } }
    } else if !passed(os[0]) {
        if os.len() == 1 { MoveV::Skip { id, why: "the second user never joined the team"@ } } else { MoveV::End }
    } else if os.len() == 1 {
        MoveV::Step { id, ceiling_ms: QUICK_MS, body: BodyV::RoleSet { slug: team_slug_of(c) } }
    } else {
        MoveV::End
    }
}

/// `team.role.set`.
pub fn role_set(c: &Run, os: &Vec<Outcome>) -> (m: Move<Body>)
    ensures
        m@ == role_set_move(c@, outcomes(os@)),
{
    let id = "team.role.set";
    if os.len() == 0 {
        look(Body::IsMember { slug: team_slug(c) })
    } else if !os[0].passed() {
        if os.len() == 1 { skip(id, "the second user never joined the team") } else { Move::End }
    } else if os.len() == 1 {
        step(id, QUICK_MS, Body::RoleSet { slug: team_slug(c) })
    } else {
        Move::End
    }
}

pub open spec fn workspace_move(c: RunV, ns: Seq<char>, os: Seq<OutcomeV>) -> MoveV<BodyV> {
    let id = "team.workspace"@;
    if !c.has_kube {
        if os.len() == 0 { MoveV::Skip { id, why: "no kubeconfig"@ } } else { MoveV::End }
    } else if os.len() == 0 {
        MoveV::Look { body: BodyV::TeamExists { slug: team_slug_of(c) } }
    } else if !passed(os[0]) {
        if os.len() == 1 { MoveV::Skip { id, why: "the team was never created"@ } } else { MoveV::End }
    } else if os.len() == 1 {
        MoveV::Step { id, ceiling_ms: TEAM_WS_MS, body: BodyV::Workspace { slug: team_slug_of(c), ns } }
    } else {
        MoveV::End
    }
}

/// `team.workspace`: without a kubeconfig nothing could tell the team's namespace from another, and
/// none is made. `ns` is the namespace the team's workspaces belong in.
pub fn workspace(c: &Run, ns: &str, os: &Vec<Outcome>) -> (m: Move<Body>)
    ensures
        m@ == workspace_move(c@, ns@, outcomes(os@)),
{
    let id = "team.workspace";
    if !c.has_kube {
        if os.len() == 0 { skip(id, "no kubeconfig") } else { Move::End }
    } else if os.len() == 0 {
        look(Body::TeamExists { slug: team_slug(c) })
    } else if !os[0].passed() {
        if os.len() == 1 { skip(id, "the team was never created") } else { Move::End }
    } else if os.len() == 1 {
        step(id, TEAM_WS_MS, Body::Workspace { slug: team_slug(c), ns: ns.to_owned() })
    } else {
        Move::End
    }
}

pub open spec fn member_remove_move(c: RunV, os: Seq<OutcomeV>) -> MoveV<BodyV> {
    let id = "team.member.remove"@;
    if os.len() == 0 {
        MoveV::Look { body: BodyV::IsMember { slug: team_slug_of(c) } }
    } else if !passed(os[0]) {
        if os.len() == 1 { MoveV::Skip { id, why: "the second user never joined the team"@ } } else { MoveV::End }
    } else if os.len() == 1 {
        MoveV::Step { id, ceiling_ms: QUICK_MS, body: BodyV::MemberRemove { slug: team_slug_of(c) } }
    } else {
        MoveV::End
    }
}

/// `team.member.remove`.
pub fn member_remove(c: &Run, os: &Vec<Outcome>) -> (m: Move<Body>)
    ensures
        m@ == member_remove_move(c@, outcomes(os@)),
{
    let id = "team.member.remove";
    if os.len() == 0 {
        look(Body::IsMember { slug: team_slug(c) })
    } else if !os[0].passed() {
        if os.len() == 1 { skip(id, "the second user never joined the team") } else { Move::End }
    } else if os.len() == 1 {
        step(id, QUICK_MS, Body::MemberRemove { slug: team_slug(c) })
    } else {
        Move::End
    }
}

pub open spec fn delete_move(c: RunV, os: Seq<OutcomeV>) -> MoveV<BodyV> {
    let id = "team.delete"@;
    if os.len() == 0 {
        MoveV::Look { body: BodyV::TeamExists { slug: team_slug_of(c) } }
    } else if !passed(os[0]) {
        if os.len() == 1 { MoveV::Skip { id, why: "the team was never created"@ } } else { MoveV::End }
    } else if os.len() == 1 {
        MoveV::Look { body: BodyV::DropRepo { slug: team_slug_of(c) } }
    } else if os.len() == 2 {
        MoveV::Step { id, ceiling_ms: more(c.team_drain_ms, 30_000), body: BodyV::Delete { slug: team_slug_of(c) } }
    } else {
        MoveV::End
    }
}

/// `team.delete`: the repository goes first, as far as it can.
pub fn delete(c: &Run, os: &Vec<Outcome>) -> (m: Move<Body>)
    ensures
        m@ == delete_move(c@, outcomes(os@)),
{
    let id = "team.delete";
    if os.len() == 0 {
        look(Body::TeamExists { slug: team_slug(c) })
    } else if !os[0].passed() {
        if os.len() == 1 { skip(id, "the team was never created") } else { Move::End }
    } else if os.len() == 1 {
        look(Body::DropRepo { slug: team_slug(c) })
    } else if os.len() == 2 {
        step(id, c.team_drain_ms.saturating_add(30_000), Body::Delete { slug: team_slug(c) })
    } else {
        Move::End
    }
}

pub open spec fn namespace_reaped_move(c: RunV, now: i64, os: Seq<OutcomeV>) -> MoveV<BodyV> {
    one_move(
        "team.namespace.reaped"@, QUICK_MS, "no kubeconfig"@, if c.has_kube { Some(BodyV::NamespaceReaped { now }) } else { None }, os,
    )
}

/// `team.namespace.reaped`. `now` is the time, in seconds.
pub fn namespace_reaped(c: &Run, now: i64, os: &Vec<Outcome>) -> (m: Move<Body>)
    ensures
        m@ == namespace_reaped_move(c@, now, outcomes(os@)),
{
    let body = if c.has_kube { Some(Body::NamespaceReaped { now }) } else { None };
    one("team.namespace.reaped", QUICK_MS, "no kubeconfig", body, os)
}

/// Whatever the platform answers, each of the eight ids is reported exactly once.
pub proof fn law_every_id_is_reported_once(c: RunV, ns: Seq<char>, now: i64, os: Seq<OutcomeV>)
    ensures
        reports_exactly(|o: Seq<OutcomeV>| create_move(c, o), os, seq!["team.create"@], 3),
        reports_exactly(|o: Seq<OutcomeV>| invite_accept_move(c, o), os, seq!["team.invite.accept"@], 3),
        reports_exactly(|o: Seq<OutcomeV>| role_set_move(c, o), os, seq!["team.role.set"@], 3),
        reports_exactly(|o: Seq<OutcomeV>| workspace_move(c, ns, o), os, seq!["team.workspace"@], 3),
        reports_exactly(|o: Seq<OutcomeV>| member_remove_move(c, o), os, seq!["team.member.remove"@], 3),
        reports_exactly(|o: Seq<OutcomeV>| delete_move(c, o), os, seq!["team.delete"@], 3),
        reports_exactly(|o: Seq<OutcomeV>| namespace_reaped_move(c, now, o), os, seq!["team.namespace.reaped"@], 3),
    decreases os.len(),
{
    reveal_with_fuel(reports, 4);
    if os.len() > 3 {
        law_every_id_is_reported_once(c, ns, now, os.drop_last());
    }
}

/// A team that is not there is one failure, of the step that should have made it: every id behind
/// it is skipped, and none of them makes anything.
pub proof fn law_without_a_team_the_rest_is_skipped(c: RunV, ns: Seq<char>, os: Seq<OutcomeV>)
    requires
        os.len() == 1,
        !passed(os[0]),
    ensures
        invite_accept_move(c, os) is Skip,
        role_set_move(c, os) is Skip,
        c.has_kube ==> workspace_move(c, ns, os) is Skip,
        !c.has_kube ==> workspace_move(c, ns, seq![]) is Skip,
        member_remove_move(c, os) is Skip,
        delete_move(c, os) is Skip,
{
}

/// A namespace is never called a leak while something resolves to it, while it is young, or while
/// it is going.
pub proof fn law_only_an_old_unused_namespace_leaks(row: Doc, keep: Seq<Seq<char>>, now: int, beat_secs: u64)
    ensures
        keep.contains(name_of(row)) ==> !leaked(row, keep, now, beat_secs),
        age_of(row, now) <= GRACE_BEATS * beat_secs ==> !leaked(row, keep, now, beat_secs),
        !starts(name_of(row), "wt-"@) ==> !leaked(row, keep, now, beat_secs),
        doc_str(member2(row, "status"@, "phase"@)) == Some("Terminating"@) ==> !leaked(row, keep, now, beat_secs),
{
}

} // verus!
