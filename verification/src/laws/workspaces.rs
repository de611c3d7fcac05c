//! Of what a person does in a workspace: packages, seeding, what travels, the tool server, pins and trees.

use vstd::prelude::*;

use crate::json::{Doc, doc_i64, member, member2, row_named, rows_of, text_of};
use crate::laws::{answered, came, doc_in, ran_well, waits_until, went_well};
use crate::outside::json_of;
use crate::run::{RunV, StateV, api_at};
use crate::stages::git::oid_in;
use crate::stages::trees;
use crate::stages::ws::{
    BodyV, body_found, body_next, cache_in_tree_move, home_travels_move, ide_server_move, locked, packages_move, pin_move, platform_key_move,
    seed_failed_move, seeded_move, tool_answer, tool_script,
};
use crate::text::{halves, holds, lines_of, same_letters, starts, trimmed, unsigned_of, words_of};
use crate::turn::{MoveV, OutcomeV, found_in, passed, passed_with};
use crate::wait::WaitV;
use crate::wire::{AskV, Cluster, Kind, LogV, NextV, ReplyV, deleting, getting, patching, posting};

verus! {

/// What a command printed, without the white space around it.
pub open spec fn printed_by(r: ReplyV) -> Seq<char> {
    match r {
        ReplyV::Ran { out, .. } => trimmed(out),
        _ => seq![],
    }
}

/// A create went well and said what it made.
pub open spec fn made_one(r: ReplyV) -> bool {
    went_well(r) && text_of(doc_in(r), "id"@) is Some
}

/// The id of what was made.
pub open spec fn one_made(r: ReplyV) -> Seq<char> {
    text_of(doc_in(r), "id"@)->0
}

/// A workspace is asked for under this name, with these packages.
pub open spec fn creates(n: NextV, c: RunV, name: Seq<char>, packages: Seq<Doc>) -> bool {
    n == NextV::Ask(
        posting(
            api_at(c, "/v1/workspaces"@), c.probe_jwt,
            Doc::Obj(seq![
                ("name"@, Doc::Str(name)),
                ("region"@, Doc::Str(c.region)),
                ("quota_gb"@, Doc::Int(1)),
                ("packages"@, Doc::Arr(packages)),
            ]),
        ),
    )
}

/// A workspace is waited for until it is ready.
pub open spec fn until_ready(n: NextV, c: RunV, id: Seq<char>, cap_ms: u64) -> bool {
    waits_until(n, api_at(c, "/v1/workspaces/"@ + id), c.probe_jwt, cap_ms, |d: Doc| member(d, "state"@) == Some(Doc::Str("ready"@)))
}

/// A tool answered with a status and a text: it is what the call printed, the status on a line of its own.
pub open spec fn tool_said(r: ReplyV, status: u16) -> bool {
    tool_answer(r) matches Ok((s, _)) && s == status
}

/// The text of a tool's answer.
pub open spec fn tool_text(r: ReplyV) -> Seq<char> {
    match tool_answer(r) {
        Ok((_, body)) => body,
        Err(_) => seq![],
    }
}

/// A tool's answer is the number on the first line that the call printed, and what is behind it; a call that failed, or that
/// printed no such line, is no answer.
pub proof fn law_a_tool_answers_with_its_status_first(r: ReplyV, status: u16, body: Seq<char>)
    ensures
        tool_answer(r) == Result::<(u16, Seq<char>), Seq<char>>::Ok((status, body)) <==> ran_well(r) && (r matches ReplyV::Ran { out, .. } && (
        halves(out, '\n') matches Some((line, rest)) && rest == body && unsigned_of(trimmed(line), 65_535) == Some(status as nat))),
{
}

/// A package is added exactly where a workspace was made, became ready, took the longer list, and then had the command; it is
/// removed where the shorter list was taken and the command then went.
pub proof fn law_a_package_comes_and_goes(c: RunV, name: Seq<char>, ws: Seq<char>, log: LogV)
    ensures
        ({
            let n = body_next(c, BodyV::PackagesAdd { name }, log);
            let rs = log.rs;
            let id = one_made(rs[0]);
            &&& n is Pass <==> rs.len() > 3 && made_one(rs[0]) && came(rs[1]) && went_well(rs[2]) && came(rs[3])
            &&& rs.len() == 0 ==> creates(n, c, name, seq![Doc::Str("bash"@)])
            &&& rs.len() == 1 && made_one(rs[0]) ==> until_ready(n, c, id, 240_000)
            &&& rs.len() == 2 && n is Ask ==> n == NextV::Ask(
                patching(
                    api_at(c, "/v1/workspaces/"@ + id), c.probe_jwt,
                    Doc::Obj(seq![("packages"@, Doc::Arr(seq![Doc::Str("bash"@), Doc::Str("cowsay"@)]))]),
                ),
            )
            &&& rs.len() == 3 && n is Ask ==> n == NextV::Ask(
                AskV::Wait(WaitV::Which { ws: id, package: "cowsay"@, want: true, cap_ms: 290_000 }),
            )
        }),
        ({
            let n = body_next(c, BodyV::PackagesRemove { ws }, log);
            let rs = log.rs;
            &&& n is Pass <==> rs.len() > 1 && went_well(rs[0]) && came(rs[1])
            &&& rs.len() == 0 ==> n == NextV::Ask(
                patching(
                    api_at(c, "/v1/workspaces/"@ + ws), c.probe_jwt, Doc::Obj(seq![("packages"@, Doc::Arr(seq![Doc::Str("bash"@)]))]),
                ),
            )
            &&& rs.len() == 1 && n is Ask ==> n == NextV::Ask(
                AskV::Wait(WaitV::Which { ws, package: "cowsay"@, want: false, cap_ms: 90_000 }),
            )
        }),
{
}

/// A workspace is seeded exactly where, once it was ready, the commit that is checked out in its pod is the tip of the base
/// branch, and it names that repo and that branch; it is taken away whichever it was.
pub proof fn law_a_seeded_workspace_is_at_the_tip(c: RunV, name: Seq<char>, repo: Seq<char>, log: LogV)
    ensures
        ({
            let n = body_next(c, BodyV::Seeded { name, repo }, log);
            let rs = log.rs;
            let id = one_made(rs[0]);
            &&& n is Pass <==> {
                &&& rs.len() > 4 && log.us.len() > 0
                &&& made_one(rs[0]) && came(rs[1]) && ran_well(rs[2]) && went_well(rs[3]) && went_well(rs[4])
                &&& oid_in(doc_in(rs[3]), "main"@) == Some(printed_by(rs[2]))
                &&& text_of(doc_in(rs[4]), "repo"@) == Some(c.probe_user + "/"@ + repo) && text_of(doc_in(rs[4]), "branch"@) == Some("main"@)
            }
            &&& rs.len() == 1 && made_one(rs[0]) ==> until_ready(n, c, id, 240_000)
            &&& rs.len() == 2 && n is Ask ==> (n matches NextV::Ask(AskV::Exec { ws, script, .. }) && ws == id && script == "git -C "@
                + "/home/kl/workspace"@ + " rev-parse HEAD"@)
            &&& rs.len() == 3 && n is Ask ==> n == NextV::Ask(getting(api_at(c, "/api/"@ + c.probe_user + "/"@ + repo + "/refs"@), c.probe_jwt))
            &&& rs.len() == 4 && n is Ask ==> n == NextV::Ask(getting(api_at(c, "/v1/workspaces/"@ + id), c.probe_jwt))
            &&& n matches NextV::Undo(u) ==> u == deleting(api_at(c, "/v1/workspaces/"@ + id), c.probe_jwt)
        }),
        ({
            let n = body_next(c, BodyV::SeedFailed { name }, log);
            let rs = log.rs;
            &&& n is Pass <==> rs.len() > 1 && log.us.len() > 0 && made_one(rs[0]) && came(rs[1])
            &&& rs.len() == 1 && made_one(rs[0]) ==> n == NextV::Ask(
                AskV::Wait(WaitV::SeedFailed { ws: one_made(rs[0]), cap_ms: 220_000 }),
            )
            &&& n matches NextV::Undo(u) ==> u == deleting(api_at(c, "/v1/workspaces/"@ + one_made(rs[0])), c.probe_jwt)
        }),
        log.rs.len() == 0 ==> seeds(body_next(c, BodyV::Seeded { name, repo }, log), c, name, c.probe_user + "/"@ + repo),
        log.rs.len() == 0 ==> seeds(
            body_next(c, BodyV::SeedFailed { name }, log), c, name, c.probe_user + "/"@ + name + "-does-not-exist"@,
        ),
{
}

/// A workspace is asked for under this name, from the base branch of this repo.
pub open spec fn seeds(n: NextV, c: RunV, name: Seq<char>, repo: Seq<char>) -> bool {
    n == NextV::Ask(
        posting(
            api_at(c, "/v1/workspaces"@), c.probe_jwt,
            Doc::Obj(seq![
                ("name"@, Doc::Str(name)),
                ("region"@, Doc::Str(c.region)),
                ("quota_gb"@, Doc::Int(1)),
                ("repo"@, Doc::Str(repo)),
                ("branch"@, Doc::Str("main"@)),
                ("packages"@, Doc::Arr(seq![])),
            ]),
        ),
    )
}

/// A replaced platform key is good exactly where the replacement was taken and a workspace made after it became ready with the
/// repo's own tip checked out; where it did not, it is a failure whatever else is read.
pub proof fn law_a_replaced_key_still_seeds(c: RunV, name: Seq<char>, repo: Seq<char>, log: LogV)
    ensures
        ({
            let n = body_next(c, BodyV::PlatformKey { name, repo }, log);
            let rs = log.rs;
            let id = one_made(rs[1]);
            &&& n is Pass <==> {
                &&& rs.len() > 4 && log.us.len() > 0
                &&& went_well(rs[0]) && made_one(rs[1]) && came(rs[2]) && ran_well(rs[3]) && went_well(rs[4])
                &&& oid_in(doc_in(rs[4]), "main"@) == Some(printed_by(rs[3]))
            }
            &&& rs.len() == 0 ==> n == NextV::Ask(posting(api_at(c, "/v1/platform-key?owner="@ + c.probe_user), c.probe_jwt, Doc::Null))
            &&& rs.len() == 1 && went_well(rs[0]) ==> seeds(n, c, name, c.probe_user + "/"@ + repo)
            &&& rs.len() == 2 && made_one(rs[1]) && went_well(rs[0]) ==> until_ready(n, c, id, 240_000)
            &&& rs.len() == 3 && went_well(rs[0]) && made_one(rs[1]) && came(rs[2]) ==> (n matches NextV::Ask(AskV::Exec { ws, .. }) && ws == id)
            &&& rs.len() == 4 && made_one(rs[1]) && came(rs[2]) && n is Ask ==> n == NextV::Ask(
                getting(api_at(c, "/api/"@ + c.probe_user + "/"@ + repo + "/refs"@), c.probe_jwt),
            )
            &&& n matches NextV::Undo(u) ==> u == deleting(api_at(c, "/v1/workspaces/"@ + id), c.probe_jwt)
        }),
{
}

/// The home travels exactly where both files read back in the restored copy as they were written, and a fresh workspace of
/// the same owner has neither.
pub proof fn law_a_home_travels_with_its_workspace(c: RunV, a: Seq<char>, b: Seq<char>, fresh: Seq<char>, log: LogV)
    ensures
        ({
            let n = body_next(c, BodyV::HomeTravels { a, b, fresh }, log);
            let rs = log.rs;
            let snap = one_made(rs[1]);
            let copy = one_made(rs[3]);
            let other = one_made(rs[9]);
            &&& n is Pass <==> {
                &&& rs.len() > 13
                &&& ran_well(rs[0]) && made_one(rs[1]) && came(rs[2]) && made_one(rs[3]) && came(rs[4])
                &&& ran_well(rs[6]) && ran_well(rs[7]) && printed_by(rs[6]) == c.run_id && printed_by(rs[7]) == c.run_id
                &&& made_one(rs[9]) && came(rs[10])
                &&& rs[11] is Ran && !ran_well(rs[11]) && rs[12] is Ran && !ran_well(rs[12])
            }
            &&& rs.len() == 0 ==> (n matches NextV::Ask(AskV::Exec { ws, script, .. }) && ws == a && holds(
                script, "printf %s "@ + c.run_id + " > "@ + "~/.config/kl-probe"@,
            ))
            &&& rs.len() == 3 && ran_well(rs[0]) && made_one(rs[1]) && came(rs[2]) ==> n == NextV::Ask(
                posting(
                    api_at(c, "/v1/workspaces/restore"@), c.probe_jwt,
                    Doc::Obj(seq![("name"@, Doc::Str(b)), ("snapshot_id"@, Doc::Str(snap))]),
                ),
            )
            &&& rs.len() == 2 && ran_well(rs[0]) && made_one(rs[1]) ==> waits_until(
                n, api_at(c, "/v1/volumes/"@ + a + "/history"@), c.probe_jwt, 145_000,
                |d: Doc| crate::want::says(crate::want::WantV::RowReady { id: snap }, d),
            )
            &&& rs.len() == 4 && ran_well(rs[0]) && made_one(rs[1]) && came(rs[2]) && made_one(rs[3]) ==> until_ready(n, c, copy, 145_000)
            &&& rs.len() == 6 && came(rs[2]) && made_one(rs[1]) && made_one(rs[3]) && came(rs[4]) && ran_well(rs[0]) ==> (n matches NextV::Ask(AskV::Exec {
                ws, script, ..
            }) && ws == copy && script == "cat "@ + "~/.config/kl-probe"@)
            &&& rs.len() == 7 && ran_well(rs[0]) && made_one(rs[1]) && came(rs[2]) && made_one(rs[3]) && came(rs[4]) && ran_well(rs[6]) ==> (n
                matches NextV::Ask(AskV::Exec { ws, script, .. }) && ws == copy && script == "cat "@ + "~/workspace/probe.txt"@)
            &&& rs.len() == 11 && n is Ask && came(rs[10]) && made_one(rs[9]) ==> (n matches NextV::Ask(AskV::Exec { ws, script, .. }) && ws
                == other && script == "test -e "@ + "~/.config/kl-probe"@)
            &&& rs.len() == 12 && n is Ask && came(rs[10]) && made_one(rs[9]) ==> (n matches NextV::Ask(AskV::Exec { ws, script, .. }) && ws
                == other && script == "test -e "@ + "~/workspace/probe.txt"@)
        }),
{
    let p = "printf %s "@ + c.run_id + " > "@ + "~/.config/kl-probe"@;
    let before = "set -e\nmkdir -p ~/.config ~/workspace\n"@;
    reveal_strlit("set -e\nmkdir -p ~/.config ~/workspace\n");
    reveal_strlit("set -e\nmkdir -p ~/.config ~/workspace\nprintf %s ");
    reveal_strlit("printf %s ");
    let head = "set -e\nmkdir -p ~/.config ~/workspace\nprintf %s "@;
    assert(head =~= before + "printf %s "@);
    let after = "\nprintf %s "@ + c.run_id + " > "@ + "~/workspace/probe.txt"@ + "\nsync "@ + "~/.config/kl-probe"@ + " "@
        + "~/workspace/probe.txt"@;
    let script = head + c.run_id + " > "@ + "~/.config/kl-probe"@ + "\nprintf %s "@ + c.run_id + " > "@ + "~/workspace/probe.txt"@
        + "\nsync "@ + "~/.config/kl-probe"@ + " "@ + "~/workspace/probe.txt"@;
    assert(script =~= before + p + after);
    assert((before + p + after).subrange(before.len() as int, (before.len() + p.len()) as int) =~= p);
    assert(crate::text::stands_at(script, p, before.len() as int));
}

/// A cache travels exactly where its marker reads back, in the copy restored from the push, as it was written in the source.
pub proof fn law_a_cache_travels_with_the_push(c: RunV, name: Seq<char>, log: LogV)
    ensures
        ({
            let n = body_next(c, BodyV::CacheTravels { name }, log);
            let rs = log.rs;
            let src = one_made(rs[0]);
            let snap = one_made(rs[3]);
            let copy = one_made(rs[5]);
            let so_far = made_one(rs[0]) && came(rs[1]) && ran_well(rs[2]);
            &&& n is Pass <==> {
                &&& rs.len() > 10
                &&& so_far && made_one(rs[3]) && came(rs[4]) && made_one(rs[5]) && came(rs[6])
                &&& ran_well(rs[8]) && printed_by(rs[8]) == c.run_id
            }
            &&& rs.len() == 0 ==> creates(n, c, name, seq![])
            &&& rs.len() == 1 && made_one(rs[0]) ==> until_ready(n, c, src, 240_000)
            &&& rs.len() == 2 && n is Ask ==> (n matches NextV::Ask(AskV::Exec { ws, .. }) && ws == src)
            &&& rs.len() == 5 && so_far && made_one(rs[3]) && came(rs[4]) ==> n == NextV::Ask(
                posting(
                    api_at(c, "/v1/workspaces/restore"@), c.probe_jwt,
                    Doc::Obj(seq![("name"@, Doc::Str(name + "-r"@)), ("snapshot_id"@, Doc::Str(snap))]),
                ),
            )
            &&& rs.len() == 6 && so_far && made_one(rs[3]) && came(rs[4]) && made_one(rs[5]) ==> until_ready(n, c, copy, 145_000)
            &&& rs.len() == 8 && so_far && made_one(rs[3]) && came(rs[4]) && made_one(rs[5]) && came(rs[6]) ==> (n matches NextV::Ask(
                AskV::Exec { ws, script, .. },
            ) && ws == copy && script == "cat \"$CARGO_TARGET_DIR/marker\""@)
        }),
{
}

/// The tool server is up where a fresh workspace's own server came to say so; it runs a command where that exited zero as the
/// workspace's user; it is wrapped only where its log says so; and it fetches where the fetch inside it was answered.
pub proof fn law_the_tool_server_serves_and_is_fenced(c: RunV, name: Seq<char>, ws: Seq<char>, log: LogV)
    ensures
        ({
            let n = body_next(c, BodyV::IdeUp { name }, log);
            let rs = log.rs;
            &&& n is Pass <==> rs.len() > 2 && made_one(rs[0]) && came(rs[1]) && came(rs[2])
            &&& rs.len() == 0 ==> creates(n, c, name, seq![])
            &&& rs.len() == 1 && made_one(rs[0]) ==> until_ready(n, c, one_made(rs[0]), 240_000)
            &&& rs.len() == 2 && n is Ask ==> n == NextV::Ask(AskV::Wait(WaitV::Health { ws: one_made(rs[0]), cap_ms: 230_000 }))
        }),
        ({
            let n = body_next(c, BodyV::IdeExec { ws }, log);
            let rs = log.rs;
            &&& rs.len() == 0 ==> (n matches NextV::Ask(AskV::Exec { ws: at, .. }) && at == ws)
            &&& n is Pass <==> rs.len() > 0 && ran_well(rs[0]) && (rs[0] matches ReplyV::Ran { out, .. } && holds(out, "\"exit_code\":0"@)
                && holds(out, "ide-kl"@))
        }),
        ({
            let n = body_next(c, BodyV::Sandbox { ws }, log);
            let rs = log.rs;
            &&& rs.len() == 0 ==> (n matches NextV::Ask(AskV::Exec { ws: at, script, .. }) && at == ws && script == "cat "@ + c.ide_log
                + " 2>&1 || true"@)
            &&& n is Pass <==> rs.len() > 0 && ran_well(rs[0]) && (rs[0] matches ReplyV::Ran { out, .. } && holds(out, "ide.sandbox.active"@))
        }),
        ({
            let n = body_next(c, BodyV::Https { ws }, log);
            let rs = log.rs;
            let d = json_of(tool_text(rs[0]));
            let out = trimmed(match text_of(d->0, "stdout"@) { Some(t) => t, None => seq![] });
            &&& n is Pass <==> {
                &&& starts(c.web_url, "https://"@)
                &&& rs.len() > 0 && tool_said(rs[0], 200)
                &&& d is Some && doc_i64(member(d->0, "exit_code"@)) == Some(0int)
                &&& starts(out, "2"@) || starts(out, "3"@)
            }
            &&& !starts(c.web_url, "https://"@) ==> n is Fail
            &&& rs.len() == 0 && starts(c.web_url, "https://"@) ==> (n matches NextV::Ask(AskV::Exec { ws: at, .. }) && at == ws)
        }),
        ({
            let n = body_next(c, BodyV::DropWs { ws }, log);
            log.rs.len() == 0 ==> n == NextV::Ask(deleting(api_at(c, "/v1/workspaces/"@ + ws), c.probe_jwt))
        }),
{
}

/// The lock that a workspace's document has for the pinned entry.
pub open spec fn lock_in(r: ReplyV) -> Option<Doc> {
    row_named(rows_of(member(doc_in(r), "locks"@)), "entry"@, "jq@1.7"@)
}

/// Forty characters of lower-case hex.
pub open spec fn is_revision(t: Seq<char>) -> bool {
    t.len() == 40 && forall|i: int| 0 <= i < t.len() ==> ('0' <= (#[trigger] t[i]) <= '9' || 'a' <= t[i] <= 'f')
}

/// A lock is one exactly where the entry has a version that is not empty, and the revision it is built from.
pub proof fn law_a_lock_names_a_version_and_a_revision(r: ReplyV, v: Seq<char>)
    ensures
        locked(r) == Result::<Seq<char>, Seq<char>>::Ok(v) <==> {
            &&& went_well(r) && lock_in(r) is Some
            &&& text_of(lock_in(r)->0, "version"@) == Some(v) && v.len() > 0
            &&& text_of(lock_in(r)->0, "rev"@) matches Some(rev) && is_revision(rev)
        },
{
    assert forall|t: Seq<char>| #[trigger] is_revision(t) == crate::stages::ws::is_rev(t) by {
        if is_revision(t) {
            assert forall|i: int| 0 <= i < t.len() implies crate::stages::ws::hex_char(#[trigger] t[i]) by {}
        }
        if crate::stages::ws::is_rev(t) {
            assert forall|i: int| 0 <= i < t.len() implies ('0' <= (#[trigger] t[i]) <= '9' || 'a' <= t[i] <= 'f') by {
                assert(crate::stages::ws::hex_char(t[i]));
            }
        }
    }
    let none: Seq<char> = seq![];
    assert(!is_revision(none));
    if went_well(r) && lock_in(r) is Some && text_of(lock_in(r)->0, "rev"@) is Some {
        assert(is_revision(text_of(lock_in(r)->0, "rev"@)->0) == crate::stages::ws::is_rev(text_of(lock_in(r)->0, "rev"@)->0));
    }
}

/// A pin holds exactly where the fresh workspace's lock is of the pinned line and the pod itself prints that version; an update
/// leaves it as it was; and a lock that the index answered has a path in the store.
pub proof fn law_a_pin_is_what_the_pod_runs(c: RunV, name: Seq<char>, ws: Seq<char>, log: LogV)
    ensures
        ({
            let n = body_next(c, BodyV::Pin { name }, log);
            let rs = log.rs;
            let id = one_made(rs[0]);
            &&& n is Pass <==> {
                &&& rs.len() > 3 && made_one(rs[0]) && came(rs[1]) && ran_well(rs[3])
                &&& locked(rs[2]) matches Ok(v) && starts(v, "1.7."@) && (rs[3] matches ReplyV::Ran { out, .. } && holds(out, v))
            }
            &&& rs.len() == 0 ==> creates(n, c, name, seq![Doc::Str("jq@1.7"@)])
            &&& rs.len() == 1 && made_one(rs[0]) ==> until_ready(n, c, id, 240_000)
            &&& rs.len() == 2 && n is Ask ==> n == NextV::Ask(getting(api_at(c, "/v1/workspaces/"@ + id), c.probe_jwt))
            &&& rs.len() == 3 && n is Ask ==> (n matches NextV::Ask(AskV::Exec { ws: at, script, .. }) && at == id && script == "jq --version"@)
        }),
        ({
            let n = body_next(c, BodyV::Update { ws }, log);
            let rs = log.rs;
            &&& n is Pass <==> rs.len() > 2 && locked(rs[0]) is Ok && went_well(rs[1]) && locked(rs[2]) is Ok && locked(rs[0])->Ok_0 == locked(
                rs[2],
            )->Ok_0
            &&& rs.len() == 1 && n is Ask ==> n == NextV::Ask(
                posting(api_at(c, "/v1/workspaces/"@ + ws) + "/packages/update"@, c.probe_jwt, Doc::Null),
            )
            &&& (rs.len() == 0 || rs.len() == 2) && n is Ask ==> n == NextV::Ask(getting(api_at(c, "/v1/workspaces/"@ + ws), c.probe_jwt))
        }),
        ({
            let n = body_next(c, BodyV::LockShape { ws }, log);
            let rs = log.rs;
            let lock = row_named(rows_of(member2(doc_in(rs[1]), "spec"@, "locks"@)), "entry"@, "jq@1.7"@);
            let source = match text_of(lock->0, "source"@) { Some(t) => t, None => seq![] };
            let path = match text_of(lock->0, "storePath"@) { Some(t) => t, None => seq![] };
            &&& n is Pass <==> {
                &&& rs.len() > 1 && locked(rs[0]) is Ok && went_well(rs[1])
                &&& lock is Some && (same_letters(source, "nixhub"@) ==> starts(path, "/nix/store/"@))
            }
            &&& rs.len() == 1 && n is Ask ==> n == NextV::Ask(AskV::Read { cluster: Cluster::Fleet, kind: Kind::Workspace, ns: seq![], name: ws })
        }),
{
}

/// A version that nobody published, and one that was never built, are each turned down with a 422 that names what there is
/// instead.
pub proof fn law_a_version_that_is_not_there_is_turned_down(c: RunV, ws: Seq<char>, log: LogV)
    ensures
        ({
            let n = body_next(c, BodyV::PinUnknown { ws }, log);
            let rs = log.rs;
            &&& n is Pass <==> rs.len() > 0 && answered(rs[0], 422) && (rs[0] matches ReplyV::Answer { text, .. } && holds(text, "nearest:"@))
            &&& rs.len() == 0 ==> n == NextV::Ask(
                patching(
                    api_at(c, "/v1/workspaces/"@ + ws), c.probe_jwt, Doc::Obj(seq![("packages"@, Doc::Arr(seq![Doc::Str("jq@0.0.99"@)]))]),
                ),
            )
        }),
        ({
            let n = body_next(c, BodyV::PinUncached { ws }, log);
            let rs = log.rs;
            &&& n is Pass <==> rs.len() > 0 && answered(rs[0], 422) && (rs[0] matches ReplyV::Answer { text, .. } && holds(
                text, "no cached build"@,
            ) && holds(text, "nearest cached:"@))
            &&& rs.len() == 0 ==> n == NextV::Ask(
                patching(
                    api_at(c, "/v1/workspaces/"@ + ws), c.probe_jwt,
                    Doc::Obj(seq![("packages"@, Doc::Arr(seq![Doc::Str("nodejs@20.20.2"@)]))]),
                ),
            )
        }),
{
}

/// What a body has learned is the workspace that it made and that became ready.
pub proof fn law_a_workspace_is_known_by_the_id_it_was_given(name: Seq<char>, a: Seq<char>, b: Seq<char>, t: Seq<char>, log: LogV)
    ensures
        ({
            let ready = log.rs.len() > 1 && came(log.rs[1]) && made_one(log.rs[0]) && one_made(log.rs[0]) == t;
            &&& body_found(BodyV::PackagesAdd { name }, log) == Some(t) <==> ready
            &&& body_found(BodyV::Pin { name }, log) == Some(t) <==> ready
            &&& body_found(BodyV::IdeUp { name }, log) == Some(t) <==> ready
            &&& body_found(BodyV::CacheTravels { name }, log) == Some(t) <==> ready
            &&& trees::body_found(trees::BodyV::Cut { name }, log) == Some(t) <==> ready
            &&& trees::body_found(trees::BodyV::NoTravel { ws: a, copy: b }, log) == Some(t) <==> log.rs.len() > 3 && made_one(log.rs[3]) && one_made(
                log.rs[3],
            ) == t
            &&& body_found(BodyV::HomeTravels { a, b, fresh: name }, log) == Some(t) <==> log.rs.len() > 3 && came(log.rs[2]) && made_one(
                log.rs[3],
            ) && one_made(log.rs[3]) == t
        }),
{
}

/// Each step is on a workspace of the run's own name, or on the one that an earlier step made.
pub proof fn law_a_workspace_step_is_the_runs_own(c: RunV, s: StateV, os: Seq<OutcomeV>)
    ensures
        packages_move(c, os) matches MoveV::Step { id, body, .. } ==> c.has_kube && {
            ||| id == "ws.packages.add"@ && body == (BodyV::PackagesAdd { name: "run-"@ + c.run_id + "-x"@ })
            ||| id == "ws.packages.remove"@ && passed(os[0]) && (body matches BodyV::PackagesRemove { ws } && found_in(os[0]) == Some(ws))
        },
        seeded_move(c, s, os) matches MoveV::Step { id, body, .. } ==> id == "ws.seeded"@ && c.has_kube && s.repo is Some && body == (
        BodyV::Seeded { name: "run-"@ + c.run_id + "-seed"@, repo: s.repo->0 }),
        seed_failed_move(c, os) matches MoveV::Step { id, body, .. } ==> id == "ws.seed.failed"@ && body == (BodyV::SeedFailed {
            name: "run-"@ + c.run_id + "-noseed"@,
        }),
        platform_key_move(c, s, os) matches MoveV::Step { id, body, .. } ==> id == "key.platform.regenerate"@ && s.repo is Some && body == (
        BodyV::PlatformKey { name: "run-"@ + c.run_id + "-seed2"@, repo: s.repo->0 }),
        home_travels_move(c, s, os) matches MoveV::Step { id, body, .. } ==> id == "home.travels"@ && s.ux_workspace is Some && body == (
        BodyV::HomeTravels { a: s.ux_workspace->0, b: "run-"@ + c.run_id + "-home-b"@, fresh: "run-"@ + c.run_id + "-home-c"@ }),
        cache_in_tree_move(c, os) matches MoveV::Step { id, body, .. } ==> id == "ws.cache.travels"@ && body == (BodyV::CacheTravels {
            name: "run-"@ + c.run_id + "-cache"@,
        }),
        ide_server_move(c, os) matches MoveV::Step { id, body, .. } ==> c.has_kube && {
            ||| os.len() == 0 && id == "ide.serve.up"@ && body == (BodyV::IdeUp { name: "run-"@ + c.run_id + "-ide"@ })
            ||| id == "ide.exec"@ && (body matches BodyV::IdeExec { ws } && passed_with(os[0]) == Some(ws))
            ||| id == "ide.sandbox.active"@ && (body matches BodyV::Sandbox { ws } && passed_with(os[0]) == Some(ws))
            ||| id == "ide.exec.https"@ && (body matches BodyV::Https { ws } && passed_with(os[0]) == Some(ws))
        },
        pin_move(c, os) matches MoveV::Step { id, body, .. } ==> c.has_kube && {
            ||| os.len() == 0 && id == "ws.packages.pin"@ && body == (BodyV::Pin { name: "run-"@ + c.run_id + "-pin"@ })
            ||| id == "ws.packages.pin.unknown"@ && (body matches BodyV::PinUnknown { ws } && found_in(os[0]) == Some(ws))
            ||| id == "ws.packages.pin.uncached"@ && (body matches BodyV::PinUncached { ws } && found_in(os[0]) == Some(ws))
            ||| id == "ws.packages.update"@ && passed(os[0]) && (body matches BodyV::Update { ws } && found_in(os[0]) == Some(ws))
            ||| id == "ws.packages.pin.lockshape"@ && passed(os[0]) && (body matches BodyV::LockShape { ws } && found_in(os[0]) == Some(ws))
        },
        trees::trees_move(c, os) matches MoveV::Step { id, body, .. } ==> c.has_kube && {
            ||| os.len() == 0 && id == "ws.tree.cut"@ && body == (trees::BodyV::Cut { name: "run-"@ + c.run_id + "-tree"@ })
            ||| id == "ws.tree.isolated"@ && (body matches trees::BodyV::Isolated { ws } && passed_with(os[0]) == Some(ws))
            ||| id == "ws.tree.ports"@ && (body matches trees::BodyV::Ports { ws } && passed_with(os[0]) == Some(ws))
            ||| id == "ws.tree.no_travel"@ && (body matches trees::BodyV::NoTravel { ws, copy } && passed_with(os[0]) == Some(ws) && copy
                == "run-"@ + c.run_id + "-tree-r"@)
            ||| id == "ws.tree.closed"@ && (body matches trees::BodyV::Closed { ws } && passed_with(os[0]) == Some(ws))
        },
{
}

/// A tree is cut exactly where, in a fresh workspace whose server is up, it was asked for and turned ready, lists just what
/// the workspace lists, and is refused to the workspace by the very path.
pub proof fn law_a_tree_is_cut_and_fenced(c: RunV, name: Seq<char>, log: LogV)
    ensures
        ({
            let n = trees::body_next(c, trees::BodyV::Cut { name }, log);
            let rs = log.rs;
            let id = one_made(rs[0]);
            &&& n is Pass <==> {
                &&& rs.len() > 7 && made_one(rs[0]) && came(rs[1]) && came(rs[2]) && went_well(rs[3]) && came(rs[4])
                &&& trees::listed(rs[5]) is Ok && trees::listed(rs[6]) is Ok && trees::listed(rs[5])->Ok_0 == trees::listed(rs[6])->Ok_0
                &&& tool_said(rs[7], 403) && holds(tool_text(rs[7]), "../.agents/probe/x"@)
            }
            &&& rs.len() == 0 ==> creates(n, c, name, seq![])
            &&& rs.len() == 1 && made_one(rs[0]) ==> until_ready(n, c, id, 240_000)
            &&& rs.len() == 3 && n is Ask ==> n == NextV::Ask(
                posting(api_at(c, "/v1/workspaces/"@ + id) + "/trees"@, c.probe_jwt, Doc::Obj(seq![("name"@, Doc::Str("probe"@))])),
            )
            &&& rs.len() == 5 && n is Ask ==> n == NextV::Ask(in_pod(id, "glob"@, seq![("pattern"@, Doc::Str("*"@))]))
            &&& rs.len() == 6 && n is Ask ==> n == NextV::Ask(
                in_pod(id, "glob"@, seq![("pattern"@, Doc::Str("*"@)), ("tree"@, Doc::Str("probe"@))]),
            )
            &&& rs.len() == 7 && n is Ask ==> n == NextV::Ask(in_pod(id, "read"@, seq![("path"@, Doc::Str("../.agents/probe/x"@))]))
        }),
{
}

/// A tool of the workspace's own server, called inside its pod.
pub open spec fn in_pod(ws: Seq<char>, tool: Seq<char>, args: Seq<(Seq<char>, Doc)>) -> AskV {
    AskV::Exec { ws, script: tool_script(tool, Doc::Obj(args)), bound_ms: 20_000 }
}

/// A listing is the sorted texts under `paths` of an answer of 200.
pub proof fn law_a_listing_is_what_was_found(r: ReplyV)
    ensures
        trees::listed(r) is Ok <==> tool_said(r, 200) && json_of(tool_text(r)) is Some,
        trees::listed(r) matches Ok(v) ==> v.to_multiset() =~= trees::strings_in(rows_of(member(json_of(tool_text(r))->0, "paths"@))).to_multiset(),
{
    if trees::listed(r) is Ok {
        crate::text::law_sorting_keeps_the_texts(trees::strings_in(rows_of(member(json_of(tool_text(r))->0, "paths"@))));
    }
}

/// Neither side reads what the other wrote exactly where both wrote and neither read was answered.
pub proof fn law_neither_side_reads_the_other(c: RunV, ws: Seq<char>, log: LogV)
    ensures
        ({
            let n = trees::body_next(c, trees::BodyV::Isolated { ws }, log);
            let rs = log.rs;
            &&& n is Pass <==> {
                &&& rs.len() > 3 && tool_said(rs[0], 200) && tool_said(rs[1], 200)
                &&& tool_answer(rs[2]) is Ok && !tool_said(rs[2], 200)
                &&& tool_answer(rs[3]) is Ok && !tool_said(rs[3], 200)
            }
            &&& rs.len() == 0 ==> n == NextV::Ask(
                in_pod(ws, "write"@, seq![
                    ("path"@, Doc::Str("in-tree.txt"@)),
                    ("content"@, Doc::Str("from the tree"@)),
                    ("tree"@, Doc::Str("probe"@)),
                ]),
            )
            &&& rs.len() == 1 && n is Ask ==> n == NextV::Ask(
                in_pod(ws, "write"@, seq![("path"@, Doc::Str("in-main.txt"@)), ("content"@, Doc::Str("from main"@))]),
            )
            &&& rs.len() == 2 && n is Ask ==> n == NextV::Ask(in_pod(ws, "read"@, seq![("path"@, Doc::Str("in-tree.txt"@))]))
            &&& rs.len() == 3 && n is Ask ==> n == NextV::Ask(
                in_pod(ws, "read"@, seq![("path"@, Doc::Str("in-main.txt"@)), ("tree"@, Doc::Str("probe"@))]),
            )
        }),
{
}

/// A text field of a tool's answer.
pub open spec fn tool_field(r: ReplyV, key: Seq<char>) -> Option<Seq<char>> {
    match json_of(tool_text(r)) {
        Some(d) => text_of(d, key),
        None => None,
    }
}

/// A port of a block of ports of the tree's own: two numbers about it, none of them among the fleet's.
pub open spec fn is_own_port(out: Seq<char>) -> bool {
    let w = words_of(out);
    w.len() >= 2 && (unsigned_of(w[0], 65_535) matches Some(p) && (halves(w[1], '-') matches Some((lo, hi)) && (unsigned_of(lo, 65_535) matches Some(
        l,
    ) && (unsigned_of(hi, 65_535) matches Some(h) && l <= p <= h && l >= 20_000))))
}

/// A tree has ports of its own exactly where its exec printed one inside its block, and a listener on a port that is held is
/// told in words that it is.
pub proof fn law_a_tree_has_ports_of_its_own(c: RunV, ws: Seq<char>, log: LogV)
    ensures
        ({
            let n = trees::body_next(c, trees::BodyV::Ports { ws }, log);
            let rs = log.rs;
            &&& n is Pass <==> {
                &&& rs.len() > 5
                &&& tool_said(rs[0], 200) && (tool_field(rs[0], "stdout"@) matches Some(out) && is_own_port(out))
                &&& tool_said(rs[1], 200)
                &&& tool_answer(rs[3]) is Ok && tool_field(rs[3], "id"@) is Some
                &&& tool_answer(rs[5]) is Ok && holds(tool_text(rs[5]), "port 20001 in use"@)
            }
            &&& rs.len() == 5 && n is Ask ==> n == NextV::Ask(
                in_pod(ws, "process_output"@, seq![("id"@, Doc::Str(tool_field(rs[3], "id"@)->0)), ("tree"@, Doc::Str("probe"@))]),
            )
        }),
{
}

/// A tree does not travel exactly where the copy restored from the push was looked at and holds nothing of it.
pub proof fn law_a_tree_stays_where_it_was_cut(c: RunV, ws: Seq<char>, copy: Seq<char>, log: LogV)
    ensures
        ({
            let n = trees::body_next(c, trees::BodyV::NoTravel { ws, copy }, log);
            let rs = log.rs;
            let id = one_made(rs[3]);
            &&& n is Pass <==> {
                &&& rs.len() > 5 && tool_said(rs[0], 200) && made_one(rs[1]) && came(rs[2]) && made_one(rs[3]) && came(rs[4])
                &&& ran_well(rs[5]) && (rs[5] matches ReplyV::Ran { out, .. } && {
                    ||| lines_of(out).len() == 0
                    ||| trimmed(lines_of(out)[0]) != "PRESENT"@
                    ||| trees::filled(lines_of(out).skip(1)).len() == 0
                })
            }
            &&& rs.len() == 3 && n is Ask ==> n == NextV::Ask(
                posting(
                    api_at(c, "/v1/workspaces/restore"@), c.probe_jwt,
                    Doc::Obj(seq![("name"@, Doc::Str(copy)), ("snapshot_id"@, Doc::Str(one_made(rs[1])))]),
                ),
            )
            &&& rs.len() == 4 && n is Ask ==> until_ready(n, c, id, 145_000)
            &&& rs.len() == 5 && n is Ask ==> (n matches NextV::Ask(AskV::Exec { ws: at, .. }) && at == id)
        }),
{
}

/// A list of lines holds something exactly where one of them is not white space alone.
pub proof fn law_a_line_of_white_space_holds_nothing(lines: Seq<Seq<char>>)
    ensures
        trees::filled(lines).len() > 0 <==> exists|i: int| 0 <= i < lines.len() && trimmed(#[trigger] lines[i]).len() > 0,
    decreases lines.len(),
{
    if lines.len() > 0 {
        law_a_line_of_white_space_holds_nothing(lines.drop_last());
        if exists|i: int| 0 <= i < lines.len() && trimmed(#[trigger] lines[i]).len() > 0 {
            let i = choose|i: int| 0 <= i < lines.len() && trimmed(#[trigger] lines[i]).len() > 0;
            if i < lines.len() - 1 {
                assert(lines.drop_last()[i] == lines[i]);
            }
        }
        if exists|i: int| 0 <= i < lines.drop_last().len() && trimmed(#[trigger] lines.drop_last()[i]).len() > 0 {
            let i = choose|i: int| 0 <= i < lines.drop_last().len() && trimmed(#[trigger] lines.drop_last()[i]).len() > 0;
            assert(lines[i] == lines.drop_last()[i]);
        }
        if trimmed(lines.last()).len() > 0 {
            assert(lines[lines.len() - 1] == lines.last());
        }
    }
}

/// A tree is closed exactly where its delete was taken, it left the status and the disk, and a workspace with another tree
/// on it was then deleted and went.
pub proof fn law_a_closed_tree_is_gone_from_the_disk(c: RunV, ws: Seq<char>, log: LogV)
    ensures
        ({
            let n = trees::body_next(c, trees::BodyV::Closed { ws }, log);
            let rs = log.rs;
            let url = api_at(c, "/v1/workspaces/"@ + ws);
            &&& n is Pass <==> {
                &&& rs.len() > 6 && went_well(rs[0]) && came(rs[1])
                &&& rs[2] matches ReplyV::Ran { out, .. } && !holds(out, "probe"@)
                &&& went_well(rs[3]) && came(rs[4]) && went_well(rs[5]) && came(rs[6])
            }
            &&& rs.len() == 0 ==> n == NextV::Ask(deleting(url + "/trees/"@ + "probe"@, c.probe_jwt))
            &&& rs.len() == 2 && n is Ask ==> (n matches NextV::Ask(AskV::Exec { ws: at, script, .. }) && at == ws && script == "ls -A "@
                + "/home/kl"@ + "/.agents 2>&1 || true"@)
            &&& rs.len() == 3 && n is Ask ==> n == NextV::Ask(
                posting(url + "/trees"@, c.probe_jwt, Doc::Obj(seq![("name"@, Doc::Str("leftover"@))])),
            )
            &&& rs.len() == 5 && n is Ask ==> n == NextV::Ask(deleting(url, c.probe_jwt))
            &&& rs.len() == 6 && n is Ask ==> n == NextV::Ask(AskV::Wait(WaitV::Away { url, token: c.probe_jwt, cap_ms: 30_000 }))
        }),
{
}

} // verus!
