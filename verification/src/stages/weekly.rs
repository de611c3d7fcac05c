//! What is too expensive for every run: large pushes, package sets nothing has built, workspaces that
//! come back on another node, a lease that changes hands, and settings that are changed live.

use vstd::prelude::*;

use crate::json::{
    Doc, Json, arr1, array_of, doc_i64, doc_u64, docs, i64_of, int_doc, items, lemma_docs, member, member2, obj1, obj2, obj4,
    rows_of, same_json, text_of, truth, txt, u64_of,
};
use crate::outside::{json_text, random_bytes, render, status_line, status_text};
use crate::probes::{Tried, TriedV};
use crate::reply::{
    call_error, call_failed, doc, doc_of, error, failed, in_turn, lost, lost_in, lost_of, lost_within, made, made_of, ran,
    ran_of, raw, raw_of, ready_in, ready_of, take_turns, tool_error, tool_error_in, tool_failed, tool_failed_in, turns_view,
    undo_failed, undo_lost,
};
use crate::run::{Run, RunV, State, StateV, admin, admin_at, api, api_at, below, joined_path, name, named, tmp, tmp_at};
use crate::stages::gaps::{env_namespace, env_ns};
use crate::stages::git::{
    authed, authed_args, git, git_asks, hosts_path, http_remote, http_url, known_hosts, known_hosts_next, ssh_at, ssh_command,
    ssh_command_of, ssh_env, ssh_env_of, ssh_url, work, work_tree,
};
use crate::stages::registry::{
    authed as authed_crane, bytes_in, bytes_of, host, host_of, layout_asks, pulled_blob, sha256, sha256_of, trim_start_matches,
    write_asks,
};
use crate::text::{
    cat2, cat3, cat4, cat5, cat6, clipped, dec, dec_int, decimal, decimal_int, first_chars, join, joined, list2, list3, list4,
    same, starts, starts_with, texts, trim, trimmed,
};
use crate::turn::{
    Move, MoveV, Outcome, OutcomeV, failure, found_in, learned, learned_by, look, one, one_move, outcomes, passed, reports,
    reports_exactly, skip, step,
};
use crate::wait::{Wait, WaitV, gave_up};
use crate::want::{Want, WantV};
use crate::wire::{
    Ask, AskV, Cluster, CraneOp, CraneOpV, Kind, Log, LogV, Next, NextV, Payload, PayloadV, Program, Reply, ReplyV, Verb, also,
    and_on, call, calling, came_at, end, ending, err_of, exec, get, getting, inside, link, opt, post, posting, seen, undo_after,
    undoing, within,
};

verus! {

/// A commit of this size is pushed: written a piece at a time, so that it is never all in memory.
pub const LARGE_COMMIT_BYTES: u64 = 104_857_600;

pub const CHUNK: u64 = 1_048_576;

/// Big enough that its push is a real transfer.
pub const LARGE_LAYER_BYTES: usize = 10_485_760;

/// The layer two images share while a collection passes.
pub const SHARED_LAYER_BYTES: usize = 65_536;

/// A package that most nodes have built no profile for.
pub const COLD_PACKAGE: &'static str = "cowsay";

/// A repeat package set that took longer than this was built again.
pub const REBUILT_MS: u64 = 30_000;

pub const PUSH_MS: u64 = 600_000;

pub const COLD_MS: u64 = 600_000;

pub const REUSE_MS: u64 = 120_000;

/// A stop and a start, one after the other, each given half.
pub const CROSS_BODY_MS: u64 = 300_000;

pub const CROSS_POLL_MS: u64 = 150_000;

pub const READ_MS: u64 = 30_000;

pub const FAILOVER_MS: u64 = 30_000;

pub const SETTINGS_MS: u64 = 60_000;

/// Two waits share one step: half each.
pub const REVERT_HALF_MS: u64 = 30_000;

pub const ROLL_MS: u64 = 240_000;

/// Long enough that the collection has passed over this owner.
pub const GC_PASS_MS: u64 = 180_000;

/// What every boot field names as its reader.
pub const AGENT: &'static str = "kloudlite-agent";

/// Why a roll would not be the probe's own.
pub const NOT_READY: &'static str = "the agent was not ready to begin with, so this step's roll is not its own";

/// The fields a reader only takes up when it starts.
pub const BOOT_FIELDS: [&'static str; 3] = ["defaultImage", "gitInitImage", "runtimeClass"];

/// Every settings write carries a note; one without is refused.
pub const SETTINGS_NOTE: &'static str = "slo probe settings check";

/// The default, and the top of the range.
pub const DEFAULT_GRACE: u64 = 86_400;

pub const GRACE_MAX: u64 = 604_800;

/// A minute: a real change, and none that anything behaves differently under.
pub const STEP: u64 = 60;

/// A step's ceiling for a body with a compensation: the body's own and a minute, so that the body's is
/// the one that is reached first.
pub fn step_cap(body_ms: u64) -> (r: u64)
    requires
        body_ms + 60_000 <= u64::MAX,
    ensures
        r == body_ms + 60_000,
{
    body_ms + 60_000
}

// ── large pushes ────────────────────────────────────────────────────────────

/// How much of a file is written next, when `left` is still to come.
pub open spec fn next_piece(left: u64) -> u64 {
    if left <= CHUNK { left } else { CHUNK }
}

pub fn piece_of(left: u64) -> (r: u64)
    ensures
        r == next_piece(left),
{
    if left <= CHUNK { left } else { CHUNK }
}

/// The next piece of a file, when `left` is still to come: random bytes, since what a push sends must not
/// compress.
pub fn random_piece(left: u64) -> (r: Vec<u8>)
    ensures
        r@.len() == next_piece(left),
{
    random_bytes(piece_of(left) as usize)
}

/// How much is written in all.
pub open spec fn written(left: u64) -> nat
    decreases left,
{
    if left == 0 { 0 } else { next_piece(left) as nat + written((left - next_piece(left)) as u64) }
}

/// A file has the size it was asked for, however it is cut into pieces.
pub proof fn law_a_file_has_its_size(n: u64)
    ensures
        written(n) == n,
    decreases n,
{
    if n > 0 {
        law_a_file_has_its_size((n - next_piece(n)) as u64);
    }
}

pub open spec fn work_tree_next(c: RunV, name: Seq<char>, rs: Seq<ReplyV>) -> NextV {
    link(rs, 0, AskV::IsDir { path: work_tree(c, name) }, tool_error(rs[0]), NextV::Pass)
}

fn work_tree_body(c: &Run, name: &str, log: &Log) -> (n: Next)
    ensures
        n@ == work_tree_next(c@, name@, log@.rs),
{
    if log.rs.len() <= 0 {
        return Next::Ask(Ask::IsDir { path: work(c, name) });
    }
    end(tool_failed(&log.rs[0]))
}

/// One large commit over both protocols: where either door is shut, a large push does not work.
/// Without a pinned host key the second half is left out, since a key learned from the host under
/// test proves nothing.
pub open spec fn large_push_next(c: RunV, name: Seq<char>, pinned: bool, rs: Seq<ReplyV>) -> NextV {
    link(
        rs, 0,
        AskV::Fill { path: joined_path(work_tree(c, name), "large.bin"@), bytes: LARGE_COMMIT_BYTES },
        tool_error_in("could not write the large file"@, rs[0]),
        link(
            rs, 1,
            git_asks(c, seq!["checkout"@, "-q"@, "-b"@, "large-"@ + c.run_id], work_tree(c, name)), tool_error(rs[1]),
            link(
                rs, 2, git_asks(c, seq!["add"@, "-A"@], work_tree(c, name)), tool_error(rs[2]),
                link(
                    rs, 3,
                    git_asks(c, seq!["commit"@, "-q"@, "-m"@, "large"@], work_tree(c, name)), tool_error(rs[3]),
                    link(
                        rs, 4,
                        git_asks(
                            c,
                            authed_args(c, seq!["push"@, "-q"@, http_remote(c, c.probe_user, name), "large-"@ + c.run_id]),
                            work_tree(c, name),
                        ),
                        tool_error_in("the HTTP push failed"@, rs[4]),
                        if pinned {
                            link(
                                rs, 5,
                                AskV::Tool {
                                    program: Program::Git,
                                    argv: seq!["push"@, "-q"@, ssh_at(c, name), "large-"@ + c.run_id],
                                    env: ssh_env_of(c, ssh_command_of(c, c.ssh_key_path, hosts_path(c))),
                                    dir: work_tree(c, name),
                                    bound_ms: PUSH_MS,
                                },
                                tool_error_in("the SSH push failed"@, rs[5]), NextV::Pass,
                            )
                        } else {
                            NextV::Pass
                        },
                    ),
                ),
            ),
        ),
    )
}

fn large_push_body(c: &Run, name: &str, pinned: bool, log: &Log) -> (n: Next)
    ensures
        n@ == large_push_next(c@, name@, pinned, log@.rs),
{
    if log.rs.len() <= 0 {
        return Next::Ask(Ask::Fill { path: below(work(c, name).as_str(), "large.bin"), bytes: LARGE_COMMIT_BYTES });
    }
    if let Some(why) = tool_failed_in("could not write the large file", &log.rs[0]) {
        return Next::Fail(why);
    }
    if log.rs.len() <= 1 {
        return Next::Ask(git(c, list4("checkout", "-q", "-b", cat2("large-", c.run_id.as_str()).as_str()), work(c, name)));
    }
    if let Some(why) = tool_failed(&log.rs[1]) {
        return Next::Fail(why);
    }
    if log.rs.len() <= 2 {
        return Next::Ask(git(c, list2("add", "-A"), work(c, name)));
    }
    if let Some(why) = tool_failed(&log.rs[2]) {
        return Next::Fail(why);
    }
    if log.rs.len() <= 3 {
        return Next::Ask(git(c, list4("commit", "-q", "-m", "large"), work(c, name)));
    }
    if let Some(why) = tool_failed(&log.rs[3]) {
        return Next::Fail(why);
    }
    if log.rs.len() <= 4 {
        return Next::Ask(git(
            c,
            authed(
                c,
                list4(
                    "push", "-q", http_url(c, c.probe_user.as_str(), name).as_str(), cat2("large-", c.run_id.as_str()).as_str(),
                ),
            ),
            work(c, name),
        ));
    }
    if let Some(why) = tool_failed_in("the HTTP push failed", &log.rs[4]) {
        return Next::Fail(why);
    }
    if !pinned {
        return Next::Pass;
    }
    if log.rs.len() <= 5 {
        return Next::Ask(Ask::Tool {
            program: Program::Git,
            argv: list4("push", "-q", ssh_url(c, name).as_str(), cat2("large-", c.run_id.as_str()).as_str()),
            env: ssh_env(c, ssh_command(c, c.ssh_key_path.as_str(), tmp(c, "known_hosts").as_str())),
            dir: work(c, name),
            bound_ms: PUSH_MS,
        });
    }
    end(tool_failed_in("the SSH push failed", &log.rs[5]))
}

/// Where an image of the probe's is pushed to.
pub open spec fn image_at(c: RunV, image: Seq<char>) -> Seq<char> {
    host_of(c) + "/"@ + c.probe_user + "/"@ + image + ":latest"@
}

fn image_ref(c: &Run, image: &str) -> (r: String)
    ensures
        r@ == image_at(c@, image@),
{
    cat6(host(c).as_str(), "/", c.probe_user.as_str(), "/", image, ":latest")
}

pub open spec fn login_asks(c: RunV, secret: Seq<char>) -> AskV {
    AskV::Crane { config: tmp_at(c, "docker"@), op: CraneOpV::Login { host: host_of(c), user: c.probe_user, secret } }
}

fn login_ask(c: &Run, secret: &str) -> (r: Ask)
    ensures
        r@ == login_asks(c@, secret@),
{
    Ask::Crane {
        config: authed_crane(c).config,
        op: CraneOp::Login { host: host(c), user: c.probe_user.clone(), secret: secret.to_owned() },
    }
}

pub open spec fn push_asks(c: RunV, dir: Seq<char>, image: Seq<char>) -> AskV {
    AskV::Crane { config: tmp_at(c, "docker"@), op: CraneOpV::Push { dir, reference: image_at(c, image) } }
}

fn push_ask(c: &Run, dir: String, image: &str) -> (r: Ask)
    ensures
        r@ == push_asks(c@, dir@, image@),
{
    Ask::Crane { config: authed_crane(c).config, op: CraneOp::Push { dir, reference: image_ref(c, image) } }
}

/// A large layer, built and pushed through the registry's own door.
pub open spec fn large_layer_next(c: RunV, secret: Seq<char>, image: Seq<char>, layer: Seq<u8>, rs: Seq<ReplyV>) -> NextV {
    in_turn(
        layout_asks(tmp_at(c, "img-large"@), layer, image, "could not build the image"@) + seq![
            (login_asks(c, secret), "could not log in"@),
            (push_asks(c, tmp_at(c, "img-large"@), image), ""@),
        ],
        rs,
        0,
    )
}

fn large_layer_body(c: &Run, secret: &str, image: &str, layer: &Vec<u8>, log: &Log) -> (n: Next)
    ensures
        n@ == large_layer_next(c@, secret@, image@, layer@, log@.rs),
{
    let mut asks = write_asks(tmp(c, "img-large").as_str(), layer, image, "could not build the image");
    let ghost first = asks@;
    asks.push((login_ask(c, secret), "could not log in".to_owned()));
    asks.push((push_ask(c, tmp(c, "img-large"), image), "".to_owned()));
    proof {
        assert(turns_view(asks@) =~= turns_view(first) + seq![
            (login_asks(c@, secret@), "could not log in"@),
            (push_asks(c@, tmp_at(c@, "img-large"@), image@), ""@),
        ]);
        assert(seen(log.rs@).skip(0) =~= seen(log.rs@));
    }
    take_turns(asks, &log.rs, 0)
}

// ── a collection that passes ────────────────────────────────────────────────

/// Both images, and what they are pushed with.
pub open spec fn shared_asks(c: RunV, secret: Seq<char>, a: Seq<char>, b: Seq<char>, layer: Seq<u8>) -> Seq<(AskV, Seq<char>)> {
    layout_asks(tmp_at(c, "img-gca"@), layer, a, "could not build image a"@) + layout_asks(
        tmp_at(c, "img-gcb"@), layer, b, "could not build image b"@,
    ) + seq![
        (login_asks(c, secret), "could not log in"@),
        (push_asks(c, tmp_at(c, "img-gca"@), a), "could not push a"@),
        (push_asks(c, tmp_at(c, "img-gcb"@), b), "could not push b"@),
    ]
}

fn shared_pushes(c: &Run, secret: &str, a: &str, b: &str, layer: &Vec<u8>) -> (r: Vec<(Ask, String)>)
    ensures
        turns_view(r@) == shared_asks(c@, secret@, a@, b@, layer@),
{
    let mut asks = write_asks(tmp(c, "img-gca").as_str(), layer, a, "could not build image a");
    let ghost first = asks@;
    let mut more = write_asks(tmp(c, "img-gcb").as_str(), layer, b, "could not build image b");
    let ghost second = more@;
    asks.append(&mut more);
    asks.push((login_ask(c, secret), "could not log in".to_owned()));
    asks.push((push_ask(c, tmp(c, "img-gca"), a), "could not push a".to_owned()));
    asks.push((push_ask(c, tmp(c, "img-gcb"), b), "could not push b".to_owned()));
    proof {
        assert(turns_view(asks@) =~= turns_view(first) + turns_view(second) + seq![
            (login_asks(c@, secret@), "could not log in"@),
            (push_asks(c@, tmp_at(c@, "img-gca"@), a@), "could not push a"@),
            (push_asks(c@, tmp_at(c@, "img-gcb"@), b@), "could not push b"@),
        ]);
    }
    asks
}

/// Why the shared layer did not come back as it was.
pub open spec fn layer_lost(layer: Seq<u8>, r: ReplyV) -> Option<Seq<char>> {
    match bytes_in("the sweep took a layer the surviving image still references"@, r) {
        Err(why) => Some(why),
        Ok(got) => if sha256_of(got) == sha256_of(layer) { None } else { Some("the shared layer came back with different bytes"@) },
    }
}

fn lost_layer(layer: &Vec<u8>, r: &Reply) -> (o: Option<String>)
    ensures
        opt(o) == layer_lost(layer@, r@),
{
    match bytes_of("the sweep took a layer the surviving image still references", r) {
        Err(why) => Some(why),
        Ok(got) => {
            if same(sha256(&got).as_str(), sha256(layer).as_str()) {
                None
            } else {
                Some("the shared layer came back with different bytes".to_owned())
            }
        },
    }
}

/// Where the shared layer is, in the image that was pulled.
pub open spec fn survivor_at(c: RunV, layer: Seq<u8>) -> Seq<char> {
    pulled_blob(tmp_at(c, "pull-gca"@), sha256_of(layer))
}

fn survivor(c: &Run, layer: &Vec<u8>) -> (r: String)
    ensures
        r@ == survivor_at(c@, layer@),
{
    let hex = trim_start_matches(sha256(layer).as_str(), "sha256:");
    below(below(tmp(c, "pull-gca").as_str(), "blobs/sha256").as_str(), hex.as_str())
}

/// One image is deleted, a whole pass is waited out, and the other still has the layer they share:
/// a pull straight after the delete would not tell what the pass took.
pub open spec fn swept_next(c: RunV, a: Seq<char>, b: Seq<char>, layer: Seq<u8>, rs: Seq<ReplyV>) -> NextV {
    link(
        rs, 0,
        posting(api_at(c, "/api/"@ + c.probe_user + "/"@ + b + "/imagedelete"@), c.probe_jwt, Doc::Null),
        call_failed("could not delete the sibling"@, rs[0]),
        also(
            rs, 1, AskV::Sleep { ms: GC_PASS_MS },
            also(
                rs, 2, AskV::Discard { path: tmp_at(c, "pull-gca"@) },
                link(
                    rs, 3,
                    AskV::Crane {
                        config: tmp_at(c, "docker"@),
                        op: CraneOpV::Pull { reference: image_at(c, a), dest: tmp_at(c, "pull-gca"@) },
                    },
                    tool_error_in("the surviving image would not pull after the sweep"@, rs[3]),
                    link(rs, 4, AskV::ReadBytes { path: survivor_at(c, layer) }, layer_lost(layer, rs[4]), NextV::Pass),
                ),
            ),
        ),
    )
}

fn swept_body(c: &Run, a: &str, b: &str, layer: &Vec<u8>, log: &Log, from: usize) -> (n: Next)
    requires
        from <= log@.rs.len(),
    ensures
        n@ == swept_next(c@, a@, b@, layer@, log@.rs.skip(from as int)),
{
    if log.rs.len() - from <= 0 {
        return Next::Ask(post(
            api(c, cat5("/api/", c.probe_user.as_str(), "/", b, "/imagedelete").as_str()), c.probe_jwt.as_str(),
            Json::Null,
        ));
    }
    if let Some(why) = failed("could not delete the sibling", &log.rs[from]) {
        return Next::Fail(why);
    }
    if log.rs.len() - from <= 1 {
        return Next::Ask(Ask::Sleep { ms: GC_PASS_MS });
    }
    if log.rs.len() - from <= 2 {
        return Next::Ask(Ask::Discard { path: tmp(c, "pull-gca") });
    }
    if log.rs.len() - from <= 3 {
        return Next::Ask(Ask::Crane {
            config: authed_crane(c).config,
            op: CraneOp::Pull { reference: image_ref(c, a), dest: tmp(c, "pull-gca") },
        });
    }
    if let Some(why) = tool_failed_in("the surviving image would not pull after the sweep", &log.rs[from + 3]) {
        return Next::Fail(why);
    }
    if log.rs.len() - from <= 4 {
        return Next::Ask(Ask::ReadBytes { path: survivor(c, layer) });
    }
    end(lost_layer(layer, &log.rs[from + 4]))
}

pub open spec fn gc_sweep_next(c: RunV, secret: Seq<char>, a: Seq<char>, b: Seq<char>, layer: Seq<u8>, rs: Seq<ReplyV>) -> NextV {
    let asks = shared_asks(c, secret, a, b, layer);
    and_on(in_turn(asks, rs, 0), swept_next(c, a, b, layer, rs.skip(asks.len() as int)))
}

fn gc_sweep_body(c: &Run, secret: &str, a: &str, b: &str, layer: &Vec<u8>, log: &Log) -> (n: Next)
    ensures
        n@ == gc_sweep_next(c@, secret@, a@, b@, layer@, log@.rs),
{
    let asks = shared_pushes(c, secret, a, b, layer);
    let from: usize = asks.len();
    proof {
        assert(turns_view(asks@).len() == from);
        assert(seen(log.rs@).skip(0) =~= seen(log.rs@));
    }
    match take_turns(asks, &log.rs, 0) {
        Next::Pass => swept_body(c, a, b, layer, log, from),
        other => other,
    }
}

/// A layer of random bytes: a pattern would be packed to nothing.
pub fn large_bytes() -> (r: Vec<u8>)
    ensures
        r@.len() == LARGE_LAYER_BYTES,
{
    random_bytes(LARGE_LAYER_BYTES)
}

pub fn shared_bytes() -> (r: Vec<u8>)
    ensures
        r@.len() == SHARED_LAYER_BYTES,
{
    random_bytes(SHARED_LAYER_BYTES)
}

// ── workspaces ──────────────────────────────────────────────────────────────

/// A workspace with a package set that nothing has built before.
pub open spec fn cold_next(c: RunV, name: Seq<char>, rs: Seq<ReplyV>) -> NextV {
    let id = made("could not create it"@, "id"@, "the create answered no workspace id"@, rs[0])->Ok_0;
    link(
        rs, 0,
        posting(
            api_at(c, "/v1/workspaces"@), c.probe_jwt,
            Doc::Obj(seq![
                ("name"@, Doc::Str(name)),
                ("region"@, Doc::Str(c.region)),
                ("quota_gb"@, Doc::Int(1)),
                ("packages"@, Doc::Arr(seq![Doc::Str(COLD_PACKAGE@)])),
            ]),
        ),
        err_of(made("could not create it"@, "id"@, "the create answered no workspace id"@, rs[0])),
        link(
            rs, 1,
            AskV::Wait(WaitV::Doc {
                url: api_at(c, "/v1/workspaces/"@ + id),
                token: c.probe_jwt,
                want: WantV::Field { key: "state"@, value: "ready"@ },
                cap_ms: COLD_MS,
            }),
            lost_in("it never became ready"@, rs[1]), NextV::Pass,
        ),
    )
}

fn cold_body(c: &Run, name: &str, log: &Log) -> (n: Next)
    ensures
        n@ == cold_next(c@, name@, log@.rs),
{
    if log.rs.len() <= 0 {
        return Next::Ask(post(
            api(c, "/v1/workspaces"), c.probe_jwt.as_str(),
            obj4(
                "name", txt(name), "region", txt(c.region.as_str()), "quota_gb", int_doc(1), "packages",
                arr1(txt(COLD_PACKAGE)),
            ),
        ));
    }
    let id = match made_of("could not create it", "id", "the create answered no workspace id", &log.rs[0]) {
        Err(why) => {
            return Next::Fail(why);
        },
        Ok(t) => t,
    };
    if log.rs.len() <= 1 {
        return Next::Ask(Ask::Wait(Wait::Doc {
            url: api(c, cat2("/v1/workspaces/", id.as_str()).as_str()),
            token: c.probe_jwt.clone(),
            want: Want::Field { key: "state".to_owned(), value: "ready".to_owned() },
            cap_ms: COLD_MS,
        }));
    }
    end(lost_within("it never became ready", &log.rs[1]))
}

/// Why a repeat package set was not taken from the index: it took as long as building it again does.
pub open spec fn rebuilt(log: LogV) -> Option<Seq<char>> {
    let ms = came_at(log, 1);
    if ms > REBUILT_MS {
        Some("the repeat package set took "@ + dec(ms as nat) + " ms, so it was rebuilt"@)
    } else {
        None
    }
}

fn was_rebuilt(log: &Log) -> (o: Option<String>)
    ensures
        opt(o) == rebuilt(log@),
{
    let ms: u64 = log.came(1);
    if ms > REBUILT_MS {
        Some(cat3("the repeat package set took ", decimal(ms).as_str(), " ms, so it was rebuilt"))
    } else {
        None
    }
}

/// The same set again, which is to be published and not built.
pub open spec fn warm_next(c: RunV, name: Seq<char>, log: LogV) -> NextV {
    let id = made("could not create it"@, "id"@, "the create answered no workspace id"@, log.rs[0])->Ok_0;
    link(
        log.rs, 0,
        posting(
            api_at(c, "/v1/workspaces"@), c.probe_jwt,
            Doc::Obj(seq![
                ("name"@, Doc::Str(name)),
                ("region"@, Doc::Str(c.region)),
                ("quota_gb"@, Doc::Int(1)),
                ("packages"@, Doc::Arr(seq![Doc::Str(COLD_PACKAGE@)])),
            ]),
        ),
        err_of(made("could not create it"@, "id"@, "the create answered no workspace id"@, log.rs[0])),
        link(
            log.rs, 1,
            AskV::Wait(WaitV::Doc {
                url: api_at(c, "/v1/workspaces/"@ + id),
                token: c.probe_jwt,
                want: WantV::Field { key: "state"@, value: "ready"@ },
                cap_ms: REUSE_MS,
            }),
            lost_in("it never became ready"@, log.rs[1]), ending(rebuilt(log)),
        ),
    )
}

fn warm_body(c: &Run, name: &str, log: &Log) -> (n: Next)
    ensures
        n@ == warm_next(c@, name@, log@),
{
    if log.rs.len() <= 0 {
        return Next::Ask(post(
            api(c, "/v1/workspaces"), c.probe_jwt.as_str(),
            obj4(
                "name", txt(name), "region", txt(c.region.as_str()), "quota_gb", int_doc(1), "packages",
                arr1(txt(COLD_PACKAGE)),
            ),
        ));
    }
    let id = match made_of("could not create it", "id", "the create answered no workspace id", &log.rs[0]) {
        Err(why) => {
            return Next::Fail(why);
        },
        Ok(t) => t,
    };
    if log.rs.len() <= 1 {
        return Next::Ask(Ask::Wait(Wait::Doc {
            url: api(c, cat2("/v1/workspaces/", id.as_str()).as_str()),
            token: c.probe_jwt.clone(),
            want: Want::Field { key: "state".to_owned(), value: "ready".to_owned() },
            cap_ms: REUSE_MS,
        }));
    }
    if let Some(why) = lost_within("it never became ready", &log.rs[1]) {
        return Next::Fail(why);
    }
    end(was_rebuilt(log))
}

pub open spec fn placement_next(c: RunV, url: Seq<char>, rs: Seq<ReplyV>) -> NextV {
    also(rs, 0, getting(url, c.probe_jwt), NextV::Pass)
}

fn placement_body(c: &Run, url: &str, log: &Log) -> (n: Next)
    ensures
        n@ == placement_next(c@, url@, log@.rs),
{
    if log.rs.len() <= 0 {
        return Next::Ask(get(url.to_owned(), c.probe_jwt.as_str()));
    }
    Next::Pass
}

/// The node something is on, where something has claimed it.
pub open spec fn placement_in(r: ReplyV) -> Option<Seq<char>> {
    match doc_of(r) {
        Ok(d) => text_of(d, "placement"@),
        Err(_) => None,
    }
}

pub fn placement(r: &Reply) -> (o: Option<String>)
    ensures
        opt(o) == placement_in(r@),
{
    match doc(r) {
        Ok(d) => d.text_at("placement"),
        Err(_) => None,
    }
}

/// A node that takes no new pods, or takes them again.
pub open spec fn cordoning(node: Seq<char>, on: bool) -> AskV {
    AskV::Change {
        cluster: Cluster::Fleet,
        kind: Kind::Node,
        ns: ""@,
        name: node,
        who: ""@,
        dry_run: false,
        body: Doc::Obj(seq![("spec"@, Doc::Obj(seq![("unschedulable"@, Doc::Bool(on))]))]),
    }
}

pub fn cordon(node: &str, on: bool) -> (r: Ask)
    ensures
        r@ == cordoning(node@, on),
{
    Ask::Change {
        cluster: Cluster::Fleet,
        kind: Kind::Node,
        ns: "".to_owned(),
        name: node.to_owned(),
        who: "".to_owned(),
        dry_run: false,
        body: obj1("spec", obj1("unschedulable", truth(on))),
    }
}

pub open spec fn cross_back_next(c: RunV, ws: Seq<char>, node: Seq<char>, rs: Seq<ReplyV>) -> NextV {
    link(
        rs, 3,
        posting(api_at(c, "/v1/workspaces/"@ + ws) + "/start"@, c.probe_jwt, Doc::Null),
        call_failed("could not start it"@, rs[3]),
        link(
            rs, 4,
            AskV::Wait(WaitV::Doc {
                url: api_at(c, "/v1/workspaces/"@ + ws),
                token: c.probe_jwt,
                want: WantV::Moved { state: "ready"@, node },
                cap_ms: CROSS_POLL_MS,
            }),
            lost_in("it did not come back ready on a node other than "@ + node, rs[4]), NextV::Pass,
        ),
    )
}

fn cross_back_body(c: &Run, ws: &str, node: &str, log: &Log) -> (n: Next)
    ensures
        n@ == cross_back_next(c@, ws@, node@, log@.rs),
{
    if log.rs.len() <= 3 {
        return Next::Ask(post(
            cat2(api(c, cat2("/v1/workspaces/", ws).as_str()).as_str(), "/start"), c.probe_jwt.as_str(), Json::Null,
        ));
    }
    if let Some(why) = failed("could not start it", &log.rs[3]) {
        return Next::Fail(why);
    }
    if log.rs.len() <= 4 {
        return Next::Ask(Ask::Wait(Wait::Doc {
            url: api(c, cat2("/v1/workspaces/", ws).as_str()),
            token: c.probe_jwt.clone(),
            want: Want::Moved { state: "ready".to_owned(), node: node.to_owned() },
            cap_ms: CROSS_POLL_MS,
        }));
    }
    end(lost_within(cat2("it did not come back ready on a node other than ", node).as_str(), &log.rs[4]))
}

/// A stopped workspace comes back on another node: its own takes no pods meanwhile, and takes them
/// again whatever came of it.
pub open spec fn cross_next(c: RunV, ws: Seq<char>, node: Seq<char>, log: LogV) -> NextV {
    link(
        log.rs, 0,
        posting(api_at(c, "/v1/workspaces/"@ + ws) + "/stop"@, c.probe_jwt, Doc::Null),
        call_failed("could not stop it"@, log.rs[0]),
        link(
            log.rs, 1,
            AskV::Wait(WaitV::Doc {
                url: api_at(c, "/v1/workspaces/"@ + ws),
                token: c.probe_jwt,
                want: WantV::Field { key: "state"@, value: "stopped"@ },
                cap_ms: CROSS_POLL_MS,
            }),
            lost_in("it never stopped"@, log.rs[1]),
            link(
                log.rs, 2, cordoning(node, true), call_failed("could not cordon "@ + node, log.rs[2]),
                undoing(
                    log, CROSS_BODY_MS, cross_back_next(c, ws, node, log.rs), cordoning(node, false),
                    call_failed(node + " was left CORDONED"@, log.us[0]),
                ),
            ),
        ),
    )
}

fn cross_body(c: &Run, ws: &str, node: &str, log: &Log) -> (n: Next)
    ensures
        n@ == cross_next(c@, ws@, node@, log@),
{
    if log.rs.len() <= 0 {
        return Next::Ask(post(
            cat2(api(c, cat2("/v1/workspaces/", ws).as_str()).as_str(), "/stop"), c.probe_jwt.as_str(), Json::Null,
        ));
    }
    if let Some(why) = failed("could not stop it", &log.rs[0]) {
        return Next::Fail(why);
    }
    if log.rs.len() <= 1 {
        return Next::Ask(Ask::Wait(Wait::Doc {
            url: api(c, cat2("/v1/workspaces/", ws).as_str()),
            token: c.probe_jwt.clone(),
            want: Want::Field { key: "state".to_owned(), value: "stopped".to_owned() },
            cap_ms: CROSS_POLL_MS,
        }));
    }
    if let Some(why) = lost_within("it never stopped", &log.rs[1]) {
        return Next::Fail(why);
    }
    if log.rs.len() <= 2 {
        return Next::Ask(cordon(node, true));
    }
    if let Some(why) = failed(cat2("could not cordon ", node).as_str(), &log.rs[2]) {
        return Next::Fail(why);
    }
    undo_after(
        log, CROSS_BODY_MS, cross_back_body(c, ws, node, log), cordon(node, false),
        undo_failed(cat2(node, " was left CORDONED").as_str(), log),
    )
}

/// Why the home on the other node is not the same home.
pub open spec fn strange_home(want: Seq<char>, r: ReplyV) -> Option<Seq<char>> {
    match ran_of(r) {
        Err(why) => Some(why),
        Ok((code, out, err)) => if code != 0 {
            Some("the home read exited "@ + dec_int(code as int) + ": "@ + trimmed(err))
        } else if trimmed(out) != want {
            Some("the peer node's home holds someone else's bytes"@)
        } else {
            None
        },
    }
}

fn home_strange(want: &str, r: &Reply) -> (o: Option<String>)
    ensures
        opt(o) == strange_home(want@, r@),
{
    match ran(r) {
        Err(why) => Some(why),
        Ok((code, out, err)) => {
            if code != 0 {
                Some(cat4("the home read exited ", decimal_int(code).as_str(), ": ", trim(err.as_str()).as_str()))
            } else if !same(trim(out.as_str()).as_str(), want) {
                Some("the peer node's home holds someone else's bytes".to_owned())
            } else {
                None
            }
        },
    }
}

/// Why the service on the other node did not answer.
pub open spec fn peer_silent(r: ReplyV) -> Option<Seq<char>> {
    match ran_of(r) {
        Err(why) => Some(why),
        Ok((code, out, err)) => if code != 0 || trimmed(out) != "slo"@ {
            Some("the service on the peer node exited "@ + dec_int(code as int) + ": "@ + trimmed(err))
        } else {
            None
        },
    }
}

fn silent_peer(r: &Reply) -> (o: Option<String>)
    ensures
        opt(o) == peer_silent(r@),
{
    match ran(r) {
        Err(why) => Some(why),
        Ok((code, out, err)) => {
            if code != 0 || !same(trim(out.as_str()).as_str(), "slo") {
                Some(cat4("the service on the peer node exited ", decimal_int(code).as_str(), ": ", trim(err.as_str()).as_str()))
            } else {
                None
            }
        },
    }
}

/// What was written in the home on the first node.
pub open spec fn home_read_next(c: RunV, ws: Seq<char>, rs: Seq<ReplyV>) -> NextV {
    link(
        rs, 0,
        AskV::Exec { ws: ws, script: "cat /home/kl/.slo"@, bound_ms: READ_MS }, strange_home(c.run_id, rs[0]),
        NextV::Pass,
    )
}

fn home_read_body(c: &Run, ws: &str, log: &Log) -> (n: Next)
    ensures
        n@ == home_read_next(c@, ws@, log@.rs),
{
    if log.rs.len() <= 0 {
        return Next::Ask(exec(ws, "cat /home/kl/.slo".to_owned(), READ_MS));
    }
    end(home_strange(c.run_id.as_str(), &log.rs[0]))
}

pub open spec fn env_cross_back_next(c: RunV, env: Seq<char>, node: Seq<char>, rs: Seq<ReplyV>) -> NextV {
    link(
        rs, 3,
        posting(api_at(c, "/v1/environments/"@ + env) + "/start"@, c.probe_jwt, Doc::Null),
        call_failed("could not start it"@, rs[3]),
        link(
            rs, 4,
            AskV::Wait(WaitV::Doc {
                url: api_at(c, "/v1/environments/"@ + env),
                token: c.probe_jwt,
                want: WantV::Moved { state: "running"@, node },
                cap_ms: CROSS_POLL_MS,
            }),
            lost_in("it did not come back running on a node other than "@ + node, rs[4]),
            link(
                rs, 5,
                AskV::PodExec {
                    ns: env_ns(env),
                    pod: "redis-0"@,
                    container: ""@,
                    argv: seq!["sh"@, "-c"@, "echo slo"@],
                    bound_ms: READ_MS,
                },
                peer_silent(rs[5]), NextV::Pass,
            ),
        ),
    )
}

fn env_cross_back_body(c: &Run, env: &str, node: &str, log: &Log) -> (n: Next)
    ensures
        n@ == env_cross_back_next(c@, env@, node@, log@.rs),
{
    if log.rs.len() <= 3 {
        return Next::Ask(post(
            cat2(api(c, cat2("/v1/environments/", env).as_str()).as_str(), "/start"), c.probe_jwt.as_str(), Json::Null,
        ));
    }
    if let Some(why) = failed("could not start it", &log.rs[3]) {
        return Next::Fail(why);
    }
    if log.rs.len() <= 4 {
        return Next::Ask(Ask::Wait(Wait::Doc {
            url: api(c, cat2("/v1/environments/", env).as_str()),
            token: c.probe_jwt.clone(),
            want: Want::Moved { state: "running".to_owned(), node: node.to_owned() },
            cap_ms: CROSS_POLL_MS,
        }));
    }
    if let Some(why) = lost_within(cat2("it did not come back running on a node other than ", node).as_str(), &log.rs[4]) {
        return Next::Fail(why);
    }
    if log.rs.len() <= 5 {
        return Next::Ask(Ask::PodExec {
            ns: env_namespace(env),
            pod: "redis-0".to_owned(),
            container: "".to_owned(),
            argv: list3("sh", "-c", "echo slo"),
            bound_ms: READ_MS,
        });
    }
    end(silent_peer(&log.rs[5]))
}

/// The same for an environment, whose service is then to answer there: one that only says it runs
/// has no pod to ask.
pub open spec fn env_cross_next(c: RunV, env: Seq<char>, node: Seq<char>, log: LogV) -> NextV {
    link(
        log.rs, 0,
        posting(api_at(c, "/v1/environments/"@ + env) + "/stop"@, c.probe_jwt, Doc::Null),
        call_failed("could not stop it"@, log.rs[0]),
        link(
            log.rs, 1,
            AskV::Wait(WaitV::Doc {
                url: api_at(c, "/v1/environments/"@ + env),
                token: c.probe_jwt,
                want: WantV::Field { key: "state"@, value: "stopped"@ },
                cap_ms: CROSS_POLL_MS,
            }),
            lost_in("it never stopped"@, log.rs[1]),
            link(
                log.rs, 2, cordoning(node, true), call_failed("could not cordon "@ + node, log.rs[2]),
                undoing(
                    log, CROSS_BODY_MS, env_cross_back_next(c, env, node, log.rs), cordoning(node, false),
                    call_failed(node + " was left CORDONED"@, log.us[0]),
                ),
            ),
        ),
    )
}

fn env_cross_body(c: &Run, env: &str, node: &str, log: &Log) -> (n: Next)
    ensures
        n@ == env_cross_next(c@, env@, node@, log@),
{
    if log.rs.len() <= 0 {
        return Next::Ask(post(
            cat2(api(c, cat2("/v1/environments/", env).as_str()).as_str(), "/stop"), c.probe_jwt.as_str(), Json::Null,
        ));
    }
    if let Some(why) = failed("could not stop it", &log.rs[0]) {
        return Next::Fail(why);
    }
    if log.rs.len() <= 1 {
        return Next::Ask(Ask::Wait(Wait::Doc {
            url: api(c, cat2("/v1/environments/", env).as_str()),
            token: c.probe_jwt.clone(),
            want: Want::Field { key: "state".to_owned(), value: "stopped".to_owned() },
            cap_ms: CROSS_POLL_MS,
        }));
    }
    if let Some(why) = lost_within("it never stopped", &log.rs[1]) {
        return Next::Fail(why);
    }
    if log.rs.len() <= 2 {
        return Next::Ask(cordon(node, true));
    }
    if let Some(why) = failed(cat2("could not cordon ", node).as_str(), &log.rs[2]) {
        return Next::Fail(why);
    }
    undo_after(
        log, CROSS_BODY_MS, env_cross_back_body(c, env, node, log), cordon(node, false),
        undo_failed(cat2(node, " was left CORDONED").as_str(), log),
    )
}

// ── the control plane ───────────────────────────────────────────────────────

/// The pod that says it holds the lease.
pub open spec fn leader_in(r: ReplyV) -> Result<Seq<char>, Seq<char>> {
    match doc_of(r) {
        Err(why) => Err(within("nothing reports holding the lease"@, why)),
        Ok(d) => match text_of(d, "leader_pod"@) {
            Some(pod) => Ok(pod),
            None => Err(within("nothing reports holding the lease"@, "the pipeline route named no leader"@)),
        },
    }
}

fn leader(r: &Reply) -> (o: Result<String, String>)
    ensures
        (match o { Ok(t) => Ok(t@), Err(e) => Err(e@) }) == leader_in(r@),
{
    match doc(r) {
        Err(why) => Err(inside("nothing reports holding the lease", why.as_str())),
        Ok(d) => match d.text_at("leader_pod") {
            Some(pod) => Ok(pod),
            None => Err(inside("nothing reports holding the lease", "the pipeline route named no leader")),
        },
    }
}

/// The pod that holds the lease is deleted, in the cluster the probe itself runs in, and another is
/// to take it.
pub open spec fn failover_next(c: RunV, rs: Seq<ReplyV>) -> NextV {
    let was = leader_in(rs[0])->Ok_0;
    link(
        rs, 0, getting(admin_at(c, "/admin/slo/pipeline"@), c.admin_jwt), err_of(leader_in(rs[0])),
        link(
            rs, 1,
            AskV::Remove { cluster: Cluster::Home, kind: Kind::Pod, ns: "kloudlite"@, name: was },
            call_failed("could not delete the leader"@, rs[1]),
            link(
                rs, 2,
                AskV::Wait(WaitV::Doc {
                    url: admin_at(c, "/admin/slo/pipeline"@),
                    token: c.admin_jwt,
                    want: WantV::OtherThan { key: "leader_pod"@, value: was },
                    cap_ms: FAILOVER_MS,
                }),
                lost_in("the lease was still on "@ + was, rs[2]), NextV::Pass,
            ),
        ),
    )
}

fn failover_body(c: &Run, log: &Log) -> (n: Next)
    ensures
        n@ == failover_next(c@, log@.rs),
{
    if log.rs.len() <= 0 {
        return Next::Ask(get(admin(c, "/admin/slo/pipeline"), c.admin_jwt.as_str()));
    }
    let was = match leader(&log.rs[0]) {
        Err(why) => {
            return Next::Fail(why);
        },
        Ok(t) => t,
    };
    if log.rs.len() <= 1 {
        return Next::Ask(Ask::Remove {
            cluster: Cluster::Home,
            kind: Kind::Pod,
            ns: "kloudlite".to_owned(),
            name: was.clone(),
        });
    }
    if let Some(why) = failed("could not delete the leader", &log.rs[1]) {
        return Next::Fail(why);
    }
    if log.rs.len() <= 2 {
        return Next::Ask(Ask::Wait(Wait::Doc {
            url: admin(c, "/admin/slo/pipeline"),
            token: c.admin_jwt.clone(),
            want: Want::OtherThan { key: "leader_pod".to_owned(), value: was.clone() },
            cap_ms: FAILOVER_MS,
        }));
    }
    end(lost_within(cat2("the lease was still on ", was.as_str()).as_str(), &log.rs[2]))
}

/// The grace that is set, or that is in force where none is.
pub open spec fn grace_in(r: ReplyV) -> Result<u64, Seq<char>> {
    match doc_of(r) {
        Err(why) => Err(within("could not read the settings"@, why)),
        Ok(d) => match doc_u64(member(d, "uploadGraceSecs"@)) {
            Some(n) => Ok(n as u64),
            None => Ok(DEFAULT_GRACE),
        },
    }
}

fn grace(r: &Reply) -> (o: Result<u64, String>)
    ensures
        (match o { Ok(n) => Ok(n), Err(e) => Err(e@) }) == grace_in(r@),
{
    match doc(r) {
        Err(why) => Err(inside("could not read the settings", why.as_str())),
        Ok(d) => match u64_of(d.get("uploadGraceSecs")) {
            Some(n) => Ok(n),
            None => Ok(DEFAULT_GRACE),
        },
    }
}

/// A value `by` away from another: above it where the range allows, and else below.
pub open spec fn shifted(was: u64, by: u64) -> u64 {
    if was + by <= GRACE_MAX { (was + by) as u64 } else { (was - by) as u64 }
}

/// The shift is by at most two steps.
pub fn shift(was: u64, by: u64) -> (r: u64)
    requires
        by <= 2 * STEP,
    ensures
        r == shifted(was, by),
{
    if was <= GRACE_MAX - by { was + by } else { was - by }
}

/// A write that stays in the range, and that changes what is set.
pub proof fn law_a_shift_is_a_change_in_the_range(was: u64)
    requires
        was <= GRACE_MAX,
    ensures
        shifted(was, STEP) <= GRACE_MAX,
        shifted(was, STEP) != was,
        shifted(was, (2 * STEP) as u64) <= GRACE_MAX,
        shifted(was, (2 * STEP) as u64) != was,
{
}

pub open spec fn grace_doc(v: u64) -> Doc {
    Doc::Obj(seq![("uploadGraceSecs"@, Doc::Int(v as int)), ("note"@, Doc::Str(SETTINGS_NOTE@))])
}

/// One settings write.
pub open spec fn putting(c: RunV, v: u64) -> AskV {
    calling(Verb::Put, admin_at(c, "/admin/settings/central"@), c.admin_jwt, PayloadV::Doc(grace_doc(v)))
}

fn put(c: &Run, v: u64) -> (r: Ask)
    ensures
        r@ == putting(c@, v),
{
    let body = obj2("uploadGraceSecs", Json::Int(v as i128), "note", txt(SETTINGS_NOTE));
    call(Verb::Put, admin(c, "/admin/settings/central"), c.admin_jwt.as_str(), Payload::Doc(body))
}

pub open spec fn read_back_next(c: RunV, to: u64, rs: Seq<ReplyV>) -> NextV {
    link(
        rs, 2,
        AskV::Wait(WaitV::Doc {
            url: admin_at(c, "/admin/settings/central"@),
            token: c.admin_jwt,
            want: WantV::Grace { value: to },
            cap_ms: SETTINGS_MS,
        }),
        lost_in("the change never read back"@, rs[2]), NextV::Pass,
    )
}

fn read_back_body(c: &Run, to: u64, log: &Log) -> (n: Next)
    ensures
        n@ == read_back_next(c@, to, log@.rs),
{
    if log.rs.len() <= 2 {
        return Next::Ask(Ask::Wait(Wait::Doc {
            url: admin(c, "/admin/settings/central"),
            token: c.admin_jwt.clone(),
            want: Want::Grace { value: to },
            cap_ms: SETTINGS_MS,
        }));
    }
    end(lost_within("the change never read back", &log.rs[2]))
}

/// A live setting is changed, read back, and put back whatever the read came to.
pub open spec fn settings_live_next(c: RunV, log: LogV) -> NextV {
    let was = grace_in(log.rs[0])->Ok_0;
    let to = shifted(was, STEP);
    link(
        log.rs, 0,
        getting(admin_at(c, "/admin/settings/central"@), c.admin_jwt), err_of(grace_in(log.rs[0])),
        link(
            log.rs, 1, putting(c, to), call_failed("the settings write was refused"@, log.rs[1]),
            undoing(
                log, SETTINGS_MS, read_back_next(c, to, log.rs), putting(c, was),
                call_failed("the settings change was NOT reverted"@, log.us[0]),
            ),
        ),
    )
}

fn settings_live_body(c: &Run, log: &Log) -> (n: Next)
    ensures
        n@ == settings_live_next(c@, log@),
{
    if log.rs.len() <= 0 {
        return Next::Ask(get(admin(c, "/admin/settings/central"), c.admin_jwt.as_str()));
    }
    let was = match grace(&log.rs[0]) {
        Err(why) => {
            return Next::Fail(why);
        },
        Ok(t) => t,
    };
    let to = shift(was, STEP);
    if log.rs.len() <= 1 {
        return Next::Ask(put(c, to));
    }
    if let Some(why) = failed("the settings write was refused", &log.rs[1]) {
        return Next::Fail(why);
    }
    undo_after(
        log, SETTINGS_MS, read_back_body(c, to, log), put(c, was), undo_failed("the settings change was NOT reverted", log),
    )
}

pub open spec fn landed_next(c: RunV, to: u64, rs: Seq<ReplyV>) -> NextV {
    link(
        rs, 2,
        AskV::Wait(WaitV::Doc {
            url: admin_at(c, "/admin/settings/central"@),
            token: c.admin_jwt,
            want: WantV::Grace { value: to },
            cap_ms: REVERT_HALF_MS,
        }),
        lost_in("the change the revert is meant to undo never landed"@, rs[2]), NextV::Pass,
    )
}

fn landed_body(c: &Run, to: u64, log: &Log) -> (n: Next)
    ensures
        n@ == landed_next(c@, to, log@.rs),
{
    if log.rs.len() <= 2 {
        return Next::Ask(Ask::Wait(Wait::Doc {
            url: admin(c, "/admin/settings/central"),
            token: c.admin_jwt.clone(),
            want: Want::Grace { value: to },
            cap_ms: REVERT_HALF_MS,
        }));
    }
    end(lost_within("the change the revert is meant to undo never landed", &log.rs[2]))
}

/// The change, the revert, and a write of the old value where the revert was refused: a broken revert is
/// not to leave the fleet on the probe's value.
pub open spec fn reverting(c: RunV, was: u64, to: u64, log: LogV) -> NextV {
    if log.us.len() == 1 && call_error(log.us[0]) is Some {
        NextV::Undo(putting(c, was))
    } else {
        undoing(
            log, REVERT_HALF_MS, landed_next(c, to, log.rs),
            posting(
                admin_at(c, "/admin/settings/central/revert"@), c.admin_jwt,
                Doc::Obj(seq![("note"@, Doc::Str("slo probe settings revert"@))]),
            ),
            call_failed("the revert was refused"@, log.us[0]),
        )
    }
}

fn revert(c: &Run, was: u64, to: u64, log: &Log) -> (n: Next)
    ensures
        n@ == reverting(c@, was, to, log@),
{
    if log.us.len() == 1 && error(&log.us[0]).is_some() {
        return Next::Undo(put(c, was));
    }
    let ask = post(
        admin(c, "/admin/settings/central/revert"), c.admin_jwt.as_str(), obj1("note", txt("slo probe settings revert")),
    );
    undo_after(log, REVERT_HALF_MS, landed_body(c, to, log), ask, undo_failed("the revert was refused", log))
}

/// A setting is changed and the change reverted: the value that is stored has to be the one from before.
/// The new value is two steps away, so that a revert that restored nothing is not taken for one.
pub open spec fn settings_revert_next(c: RunV, log: LogV) -> NextV {
    let was = grace_in(log.rs[0])->Ok_0;
    let to = shifted(was, (2 * STEP) as u64);
    link(
        log.rs, 0, getting(admin_at(c, "/admin/settings/central"@), c.admin_jwt), err_of(grace_in(log.rs[0])),
        link(
            log.rs, 1, putting(c, to), call_failed("the settings write was refused"@, log.rs[1]),
            and_on(
                reverting(c, was, to, log),
                link(
                    log.rs, 3,
                    AskV::Wait(WaitV::Doc {
                        url: admin_at(c, "/admin/settings/central"@),
                        token: c.admin_jwt,
                        want: WantV::Grace { value: was },
                        cap_ms: REVERT_HALF_MS,
                    }),
                    lost_in("the revert answered but the old value did not come back"@, log.rs[3]), NextV::Pass,
                ),
            ),
        ),
    )
}

fn settings_revert_body(c: &Run, log: &Log) -> (n: Next)
    ensures
        n@ == settings_revert_next(c@, log@),
{
    if log.rs.len() <= 0 {
        return Next::Ask(get(admin(c, "/admin/settings/central"), c.admin_jwt.as_str()));
    }
    let was: u64 = match grace(&log.rs[0]) {
        Err(why) => {
            return Next::Fail(why);
        },
        Ok(n) => n,
    };
    let to: u64 = shift(was, 2 * STEP);
    if log.rs.len() <= 1 {
        return Next::Ask(put(c, to));
    }
    if let Some(why) = failed("the settings write was refused", &log.rs[1]) {
        return Next::Fail(why);
    }
    match revert(c, was, to, log) {
        Next::Pass => {},
        other => {
            return other;
        },
    }
    if log.rs.len() <= 3 {
        return Next::Ask(Ask::Wait(Wait::Doc {
            url: admin(c, "/admin/settings/central"),
            token: c.admin_jwt.clone(),
            want: Want::Grace { value: was },
            cap_ms: REVERT_HALF_MS,
        }));
    }
    end(lost_within("the revert answered but the old value did not come back", &log.rs[3]))
}

/// The first field of `fields` from the `from`th on that the settings carry.
pub open spec fn boot_field_from(d: Doc, from: nat) -> Option<Seq<char>>
    decreases 3 - from,
{
    if from >= 3 {
        None
    } else if member2(d, "spec"@, BOOT_FIELDS[from as int]@) is Some {
        Some(BOOT_FIELDS[from as int]@)
    } else {
        boot_field_from(d, from + 1)
    }
}

/// The first boot field that the settings of a region carry.
pub fn boot_field_of(d: &Json) -> (r: Option<&'static str>)
    ensures
        (match r { Some(t) => Some(t@), None => None }) == boot_field_from(d@, 0),
{
    let mut i: usize = 0;
    while i < 3
        invariant
            i <= 3,
            boot_field_from(d@, 0) == boot_field_from(d@, i as nat),
        decreases 3 - i,
    {
        if d.get2("spec", BOOT_FIELDS[i]).is_some() {
            return Some(BOOT_FIELDS[i]);
        }
        i = i + 1;
    }
    None
}

/// A value for the save that is to be refused.
pub open spec fn boot_value_of(held: Doc) -> Doc {
    match held {
        Doc::Str(s) => Doc::Str(s + "-slo-probe-never-written"@),
        _ => Doc::Str("slo-probe-never-written"@),
    }
}

pub fn boot_value(held: &Json) -> (r: Json)
    ensures
        r@ == boot_value_of(held@),
{
    match held {
        Json::Str(s) => txt(cat2(s.as_str(), "-slo-probe-never-written").as_str()),
        _ => txt("slo-probe-never-written"),
    }
}

/// The refused save never carries the value that is stored: one that changed nothing would not be held
/// back, and could not fail.
pub proof fn law_the_refused_save_is_a_change(held: Doc)
    ensures
        boot_value_of(held) != held,
{
    reveal_strlit("-slo-probe-never-written");
    match held {
        Doc::Str(s) => {
            assert((s + "-slo-probe-never-written"@).len() > s.len());
        },
        _ => {},
    }
}

/// A boot field of a region's settings, and what it holds.
pub open spec fn held_in(r: ReplyV) -> Result<(Seq<char>, Doc), Seq<char>> {
    match doc_of(r) {
        Err(why) => Err(within("could not read the cluster settings"@, why)),
        Ok(d) => match boot_field_from(d, 0) {
            None => Err("the cluster settings carry none of the Boot fields"@),
            Some(field) => Ok((field, value_of_field(d, field))),
        },
    }
}

pub open spec fn value_of_field(d: Doc, field: Seq<char>) -> Doc {
    match member2(d, "spec"@, field) {
        Some(v) => v,
        None => Doc::Null,
    }
}

/// What is asked for of the save.
pub open spec fn save_doc(field: Seq<char>, held: Doc) -> Doc {
    Doc::Obj(seq![(field, boot_value_of(held)), ("note"@, Doc::Str(SETTINGS_NOTE@))])
}

/// The save that is to be refused, made from the settings as they were read.
pub open spec fn boot_save(c: RunV, r: ReplyV) -> AskV {
    let p = held_in(r)->Ok_0;
    calling(Verb::Put, admin_at(c, "/admin/settings/clusters/"@ + c.region), c.admin_jwt, PayloadV::Doc(save_doc(p.0, p.1)))
}

fn save(c: &Run, r: &Reply) -> (a: Ask)
    ensures
        held_in(r@) is Ok ==> a@ == boot_save(c@, r@),
{
    let none = Json::Null;
    let body = match doc(r) {
        Err(_) => Json::Null,
        Ok(d) => match boot_field_of(&d) {
            None => Json::Null,
            Some(field) => {
                let held = match d.get2("spec", field) {
                    Some(v) => v,
                    None => &none,
                };
                obj2(field, boot_value(held), "note", txt(SETTINGS_NOTE))
            },
        },
    };
    call(
        Verb::Put, admin(c, cat2("/admin/settings/clusters/", c.region.as_str()).as_str()), c.admin_jwt.as_str(), Payload::Doc(body),
    )
}

/// Why the settings could not be read, or carry no boot field.
pub open spec fn no_boot_field(r: ReplyV) -> Option<Seq<char>> {
    err_of(held_in(r))
}

fn not_boot(r: &Reply) -> (o: Option<String>)
    ensures
        opt(o) == no_boot_field(r@),
{
    match doc(r) {
        Err(why) => Some(inside("could not read the cluster settings", why.as_str())),
        Ok(d) => match boot_field_of(&d) {
            None => Some("the cluster settings carry none of the Boot fields".to_owned()),
            Some(_) => None,
        },
    }
}

/// Why a save during a rollout was not refused.
pub open spec fn save_taken(before: ReplyV, r: ReplyV) -> Option<Seq<char>> {
    match raw_of(r) {
        Err(why) => Some(why),
        Ok((status, text)) => if status == 409 {
            None
        } else {
            Some(
                "a Boot save of `"@ + (held_in(before)->Ok_0).0 + "` during a rollout answered "@ + status_line(status) + ", not 409: "@
                    + clipped(text, 200),
            )
        },
    }
}

fn taken_save(before: &Reply, r: &Reply) -> (o: Option<String>)
    ensures
        held_in(before@) is Ok ==> opt(o) == save_taken(before@, r@),
{
    match raw(r) {
        Err(why) => Some(why),
        Ok((status, text)) => {
            if status == 409 {
                return None;
            }
            let field = field_in(before);
            Some(cat6(
                "a Boot save of `", field.as_str(), "` during a rollout answered ", status_text(status).as_str(), ", not 409: ",
                first_chars(text.as_str(), 200).as_str(),
            ))
        },
    }
}

fn field_in(before: &Reply) -> (t: String)
    ensures
        held_in(before@) is Ok ==> t@ == (held_in(before@)->Ok_0).0,
{
    match doc(before) {
        Err(_) => String::new(),
        Ok(d) => match boot_field_of(&d) {
            None => String::new(),
            Some(field) => field.to_owned(),
        },
    }
}

/// Why a save that was refused was written all the same: the half that a status cannot tell.
pub open spec fn still_written(before: ReplyV, r: ReplyV) -> Option<Seq<char>> {
    let p = held_in(before)->Ok_0;
    match doc_of(r) {
        Err(why) => Some(within("could not re-read the cluster settings"@, why)),
        Ok(d) => if value_of_field(d, p.0) == p.1 {
            None
        } else {
            Some(
                "the refused save still changed `"@ + p.0 + "` from "@ + json_text(p.1) + " to "@ + json_text(value_of_field(d, p.0)),
            )
        },
    }
}

fn written_still(before: &Reply, r: &Reply) -> (o: Option<String>)
    ensures
        held_in(before@) is Ok ==> opt(o) == still_written(before@, r@),
{
    let none = Json::Null;
    match doc(r) {
        Err(why) => Some(inside("could not re-read the cluster settings", why.as_str())),
        Ok(after) => match doc(before) {
            Err(_) => None,
            Ok(d) => match boot_field_of(&d) {
                None => None,
                Some(field) => {
                    let held = match d.get2("spec", field) {
                        Some(v) => v,
                        None => &none,
                    };
                    let now = match after.get2("spec", field) {
                        Some(v) => v,
                        None => &none,
                    };
                    if same_json(now, held) {
                        None
                    } else {
                        Some(cat6(
                            "the refused save still changed `", field, "` from ", render(held).as_str(), " to ", render(now).as_str(),
                        ))
                    }
                },
            },
        },
    }
}

/// The rows of the workloads.
pub open spec fn workload_rows(d: Doc) -> Seq<Doc> {
    match items(member(d, "workloads"@)) {
        Some(rows) => rows,
        None => rows_of(Some(d)),
    }
}

pub open spec fn count_in(row: Doc, key: Seq<char>) -> int {
    match doc_i64(member(row, key)) {
        Some(n) => n,
        None => 0,
    }
}

fn count(row: &Json, key: &str) -> (r: i64)
    ensures
        r == count_in(row@, key@),
{
    match i64_of(row.get(key)) {
        Some(n) => n,
        None => 0,
    }
}

/// How many of an agent's pods are ready, of how many, row by row.
pub open spec fn agent_counts(rows: Seq<Doc>) -> Seq<(int, int)>
    decreases rows.len(),
{
    if rows.len() == 0 {
        seq![]
    } else {
        let before = agent_counts(rows.drop_last());
        if text_of(rows.last(), "name"@) == Some(AGENT@) {
            before.push((count_in(rows.last(), "ready"@), count_in(rows.last(), "desired"@)))
        } else {
            before
        }
    }
}

pub open spec fn pairs_of(v: Seq<(i64, i64)>) -> Seq<(int, int)> {
    Seq::new(v.len(), |i: int| (v[i].0 as int, v[i].1 as int))
}

fn agents(rows: &Vec<Json>) -> (r: Vec<(i64, i64)>)
    ensures
        pairs_of(r@) == agent_counts(docs(rows@)),
{
    let mut r: Vec<(i64, i64)> = Vec::new();
    let mut i: usize = 0;
    let ghost all = docs(rows@);
    proof {
        lemma_docs(rows@);
        assert(all.take(0) =~= Seq::<Doc>::empty());
        assert(pairs_of(r@) =~= Seq::<(int, int)>::empty());
    }
    while i < rows.len()
        invariant
            i <= rows@.len(),
            all == docs(rows@),
            all.len() == rows@.len(),
            forall|k: int| 0 <= k < rows@.len() ==> all[k] == (#[trigger] rows@[k])@,
            pairs_of(r@) == agent_counts(all.take(i as int)),
        decreases rows.len() - i,
    {
        let ghost before = r@;
        proof {
            assert(all.take(i + 1).drop_last() =~= all.take(i as int));
            assert(all.take(i + 1).last() == rows@[i as int]@);
        }
        if rows[i].is_at("name", AGENT) {
            let ready: i64 = count(&rows[i], "ready");
            let desired: i64 = count(&rows[i], "desired");
            r.push((ready, desired));
            proof {
                assert(pairs_of(r@) =~= pairs_of(before).push((ready as int, desired as int)));
            }
        }
        i = i + 1;
    }
    proof {
        assert(all.take(all.len() as int) =~= all);
    }
    r
}

/// Every row is as wanted: below what is desired while rolling, and else just that.
pub open spec fn all_as(v: Seq<(int, int)>, rolling: bool) -> bool {
    forall|i: int| 0 <= i < v.len() ==> is_as(#[trigger] v[i], rolling)
}

pub open spec fn is_as(row: (int, int), rolling: bool) -> bool {
    if rolling { row.0 < row.1 } else { row.0 == row.1 }
}

fn are_all(v: &Vec<(i64, i64)>, rolling: bool) -> (r: bool)
    ensures
        r == all_as(pairs_of(v@), rolling),
{
    let mut i: usize = 0;
    while i < v.len()
        invariant
            i <= v@.len(),
            forall|k: int| 0 <= k < i ==> is_as(#[trigger] pairs_of(v@)[k], rolling),
        decreases v.len() - i,
    {
        proof {
            assert(pairs_of(v@)[i as int] == (v@[i as int].0 as int, v@[i as int].1 as int));
        }
        if (rolling && v[i].0 >= v[i].1) || (!rolling && v[i].0 != v[i].1) {
            return false;
        }
        i = i + 1;
    }
    true
}

/// Each row as it is told.
pub open spec fn rows_told(v: Seq<(int, int)>) -> Seq<Seq<char>> {
    Seq::new(v.len(), |i: int| dec_int(v[i].0) + "/"@ + dec_int(v[i].1))
}

fn row_words(v: &Vec<(i64, i64)>) -> (r: Vec<String>)
    ensures
        texts(r@) == rows_told(pairs_of(v@)),
{
    let mut r: Vec<String> = Vec::new();
    let mut i: usize = 0;
    while i < v.len()
        invariant
            i <= v@.len(),
            r@.len() == i,
            forall|k: int| 0 <= k < i ==> (#[trigger] r@[k])@ == dec_int(v@[k].0 as int) + "/"@ + dec_int(v@[k].1 as int),
        decreases v.len() - i,
    {
        r.push(cat3(decimal_int(v[i].0).as_str(), "/", decimal_int(v[i].1).as_str()));
        i = i + 1;
    }
    proof {
        assert(texts(r@) =~= rows_told(pairs_of(v@)));
    }
    r
}

/// A look at the agent's rows. A listing that fails is no answer: it would pass through a console that
/// has stopped answering.
pub open spec fn agent_tried(rolling: bool, r: ReplyV) -> TriedV {
    match doc_of(r) {
        Err(why) => TriedV::Broken(within("could not read the workloads"@, why)),
        Ok(d) => {
            let v = agent_counts(workload_rows(d));
            if v.len() == 0 {
                TriedV::Broken("`"@ + AGENT@ + "` is not listed as a roll target at all"@)
            } else if all_as(v, rolling) {
                TriedV::Yes
            } else {
                TriedV::NotYet(joined(rows_told(v), " "@))
            }
        },
    }
}

pub fn try_agent(rolling: bool, r: &Reply) -> (t: Tried)
    ensures
        t@ == agent_tried(rolling, r@),
{
    match doc(r) {
        Err(why) => Tried::Broken(inside("could not read the workloads", why.as_str())),
        Ok(d) => {
            let v = match array_of(d.get("workloads")) {
                Some(rows) => agents(rows),
                None => match array_of(Some(&d)) {
                    Some(rows) => agents(rows),
                    None => {
                        let none: Vec<(i64, i64)> = Vec::new();
                        proof {
                            assert(pairs_of(none@) =~= Seq::<(int, int)>::empty());
                        }
                        none
                    },
                },
            };
            proof {
                assert(pairs_of(v@).len() == v@.len());
            }
            if v.len() == 0 {
                Tried::Broken(cat3("`", AGENT, "` is not listed as a roll target at all"))
            } else if are_all(&v, rolling) {
                Tried::Yes
            } else {
                Tried::NotYet(join(&row_words(&v), " "))
            }
        },
    }
}

/// While the reader is mid-rollout a save of a boot field is refused, and writes nothing.
pub open spec fn save_refused_next(c: RunV, rs: Seq<ReplyV>) -> NextV {
    link(
        rs, 3,
        AskV::Wait(WaitV::Agents {
            url: admin_at(c, "/admin/workloads"@),
            token: c.admin_jwt,
            rolling: true,
            cap_ms: (ROLL_MS / 4) as u64,
        }),
        lost_of(rs[3]),
        link(
            rs, 4, boot_save(c, rs[1]), save_taken(rs[1], rs[4]),
            link(
                rs, 5,
                getting(admin_at(c, "/admin/settings/clusters/"@ + c.region), c.admin_jwt), still_written(rs[1], rs[5]),
                NextV::Pass,
            ),
        ),
    )
}

fn save_refused_body(c: &Run, log: &Log) -> (n: Next)
    requires
        log@.rs.len() >= 3,
    ensures
        held_in(log@.rs[1]) is Ok ==> n@ == save_refused_next(c@, log@.rs),
{
    if log.rs.len() <= 3 {
        return Next::Ask(Ask::Wait(Wait::Agents {
            url: admin(c, "/admin/workloads"),
            token: c.admin_jwt.clone(),
            rolling: true,
            cap_ms: ROLL_MS / 4,
        }));
    }
    if let Some(why) = lost(&log.rs[3]) {
        return Next::Fail(why);
    }
    if log.rs.len() <= 4 {
        return Next::Ask(save(c, &log.rs[1]));
    }
    if let Some(why) = taken_save(&log.rs[1], &log.rs[4]) {
        return Next::Fail(why);
    }
    if log.rs.len() <= 5 {
        return Next::Ask(get(admin(c, cat2("/admin/settings/clusters/", c.region.as_str()).as_str()), c.admin_jwt.as_str()));
    }
    end(written_still(&log.rs[1], &log.rs[5]))
}

/// The reader is rolled by the probe itself, so that the refusal is its own; the roll is waited out
/// whatever came of the save.
pub open spec fn settings_roll_next(c: RunV, log: LogV) -> NextV {
    link(
        log.rs, 0,
        AskV::Wait(WaitV::Agents {
            url: admin_at(c, "/admin/workloads"@),
            token: c.admin_jwt,
            rolling: false,
            cap_ms: (ROLL_MS / 4) as u64,
        }),
        lost_in(NOT_READY@, log.rs[0]),
        link(
            log.rs, 1,
            getting(admin_at(c, "/admin/settings/clusters/"@ + c.region), c.admin_jwt), no_boot_field(log.rs[1]),
            link(
                log.rs, 2,
                posting(
                    admin_at(c, "/admin/workloads/"@ + c.region + "/"@ + AGENT@ + "/roll"@), c.admin_jwt,
                    Doc::Obj(seq![("reason"@, Doc::Str(SETTINGS_NOTE@))]),
                ),
                call_failed("the roll was refused"@, log.rs[2]),
                undoing(
                    log, ROLL_MS, save_refused_next(c, log.rs),
                    AskV::Wait(WaitV::Agents {
                        url: admin_at(c, "/admin/workloads"@),
                        token: c.admin_jwt,
                        rolling: false,
                        cap_ms: ROLL_MS,
                    }),
                    lost_in("the agent was left mid-rollout"@, log.us[0]),
                ),
            ),
        ),
    )
}

fn settings_roll_body(c: &Run, log: &Log) -> (n: Next)
    ensures
        n@ == settings_roll_next(c@, log@),
{
    if log.rs.len() <= 0 {
        return Next::Ask(Ask::Wait(Wait::Agents {
            url: admin(c, "/admin/workloads"),
            token: c.admin_jwt.clone(),
            rolling: false,
            cap_ms: ROLL_MS / 4,
        }));
    }
    if let Some(why) = lost_within(NOT_READY, &log.rs[0]) {
        return Next::Fail(why);
    }
    if log.rs.len() <= 1 {
        return Next::Ask(get(admin(c, cat2("/admin/settings/clusters/", c.region.as_str()).as_str()), c.admin_jwt.as_str()));
    }
    if let Some(why) = not_boot(&log.rs[1]) {
        return Next::Fail(why);
    }
    if log.rs.len() <= 2 {
        return Next::Ask(post(
            admin(c, cat5("/admin/workloads/", c.region.as_str(), "/", AGENT, "/roll").as_str()), c.admin_jwt.as_str(),
            obj1("reason", txt(SETTINGS_NOTE)),
        ));
    }
    if let Some(why) = failed("the roll was refused", &log.rs[2]) {
        return Next::Fail(why);
    }
    undo_after(
        log, ROLL_MS, save_refused_body(c, log),
        Ask::Wait(Wait::Agents {
            url: admin(c, "/admin/workloads"),
            token: c.admin_jwt.clone(),
            rolling: false,
            cap_ms: ROLL_MS,
        }),
        undo_lost("the agent was left mid-rollout", log),
    )
}

// ── the bodies ──────────────────────────────────────────────────────────────

pub enum Body {
    WorkTree { name: String },
    KnownHosts,
    LargePush { name: String, pinned: bool },
    LargeLayer { secret: String, image: String, layer: Vec<u8> },
    Cold { name: String },
    Warm { name: String },
    Placement { url: String },
    Cross { ws: String, node: String },
    HomeRead { ws: String },
    EnvCross { env: String, node: String },
    Failover,
    SettingsLive,
    SettingsRevert,
    SettingsRoll,
    GcSweep { secret: String, a: String, b: String, layer: Vec<u8> },
}

pub enum BodyV {
    WorkTree { name: Seq<char> },
    KnownHosts,
    LargePush { name: Seq<char>, pinned: bool },
    LargeLayer { secret: Seq<char>, image: Seq<char>, layer: Seq<u8> },
    Cold { name: Seq<char> },
    Warm { name: Seq<char> },
    Placement { url: Seq<char> },
    Cross { ws: Seq<char>, node: Seq<char> },
    HomeRead { ws: Seq<char> },
    EnvCross { env: Seq<char>, node: Seq<char> },
    Failover,
    SettingsLive,
    SettingsRevert,
    SettingsRoll,
    GcSweep { secret: Seq<char>, a: Seq<char>, b: Seq<char>, layer: Seq<u8> },
}

impl View for Body {
    type V = BodyV;

    open spec fn view(&self) -> BodyV {
        match self {
            Body::WorkTree { name } => BodyV::WorkTree { name: name@ },
            Body::KnownHosts => BodyV::KnownHosts,
            Body::LargePush { name, pinned } => BodyV::LargePush { name: name@, pinned: *pinned },
            Body::LargeLayer { secret, image, layer } => BodyV::LargeLayer { secret: secret@, image: image@, layer: layer@ },
            Body::Cold { name } => BodyV::Cold { name: name@ },
            Body::Warm { name } => BodyV::Warm { name: name@ },
            Body::Placement { url } => BodyV::Placement { url: url@ },
            Body::Cross { ws, node } => BodyV::Cross { ws: ws@, node: node@ },
            Body::HomeRead { ws } => BodyV::HomeRead { ws: ws@ },
            Body::EnvCross { env, node } => BodyV::EnvCross { env: env@, node: node@ },
            Body::Failover => BodyV::Failover,
            Body::SettingsLive => BodyV::SettingsLive,
            Body::SettingsRevert => BodyV::SettingsRevert,
            Body::SettingsRoll => BodyV::SettingsRoll,
            Body::GcSweep { secret, a, b, layer } => BodyV::GcSweep { secret: secret@, a: a@, b: b@, layer: layer@ },
        }
    }
}

/// What a body does next.
pub open spec fn body_next(c: RunV, b: BodyV, log: LogV) -> NextV {
    match b {
        BodyV::WorkTree { name } => work_tree_next(c, name, log.rs),
        BodyV::KnownHosts => known_hosts_next(c, log.rs),
        BodyV::LargePush { name, pinned } => large_push_next(c, name, pinned, log.rs),
        BodyV::LargeLayer { secret, image, layer } => large_layer_next(c, secret, image, layer, log.rs),
        BodyV::Cold { name } => cold_next(c, name, log.rs),
        BodyV::Warm { name } => warm_next(c, name, log),
        BodyV::Placement { url } => placement_next(c, url, log.rs),
        BodyV::Cross { ws, node } => cross_next(c, ws, node, log),
        BodyV::HomeRead { ws } => home_read_next(c, ws, log.rs),
        BodyV::EnvCross { env, node } => env_cross_next(c, env, node, log),
        BodyV::Failover => failover_next(c, log.rs),
        BodyV::SettingsLive => settings_live_next(c, log),
        BodyV::SettingsRevert => settings_revert_next(c, log),
        BodyV::SettingsRoll => settings_roll_next(c, log),
        BodyV::GcSweep { secret, a, b, layer } => gc_sweep_next(c, secret, a, b, layer, log.rs),
    }
}

/// The stretch of a body that has a time of its own: how many replies it begins after, and how long it
/// is given.
pub open spec fn body_region(b: BodyV) -> Option<(usize, u64)> {
    match b {
        BodyV::Cross { .. } => Some((3usize, CROSS_BODY_MS)),
        BodyV::EnvCross { .. } => Some((3usize, CROSS_BODY_MS)),
        BodyV::SettingsLive => Some((2usize, SETTINGS_MS)),
        BodyV::SettingsRevert => Some((2usize, REVERT_HALF_MS)),
        BodyV::SettingsRoll => Some((3usize, ROLL_MS)),
        _ => None,
    }
}

/// What a body has learned: the workspace it made, or the node something is on.
pub open spec fn body_found(b: BodyV, log: LogV) -> Option<Seq<char>> {
    match b {
        BodyV::Cold { .. } => ready_in(log.rs),
        BodyV::Placement { .. } => if log.rs.len() > 0 { placement_in(log.rs[0]) } else { None },
        _ => None,
    }
}

impl Body {
    pub fn next(&self, c: &Run, log: &Log) -> (n: Next)
        ensures
            n@ == body_next(c@, self@, log@),
    {
        match self {
            Body::WorkTree { name } => work_tree_body(c, name.as_str(), log),
            Body::KnownHosts => known_hosts(c, log),
            Body::LargePush { name, pinned } => large_push_body(c, name.as_str(), *pinned, log),
            Body::LargeLayer { secret, image, layer } => large_layer_body(c, secret.as_str(), image.as_str(), layer, log),
            Body::Cold { name } => cold_body(c, name.as_str(), log),
            Body::Warm { name } => warm_body(c, name.as_str(), log),
            Body::Placement { url } => placement_body(c, url.as_str(), log),
            Body::Cross { ws, node } => cross_body(c, ws.as_str(), node.as_str(), log),
            Body::HomeRead { ws } => home_read_body(c, ws.as_str(), log),
            Body::EnvCross { env, node } => env_cross_body(c, env.as_str(), node.as_str(), log),
            Body::Failover => failover_body(c, log),
            Body::SettingsLive => settings_live_body(c, log),
            Body::SettingsRevert => settings_revert_body(c, log),
            Body::SettingsRoll => settings_roll_body(c, log),
            Body::GcSweep { secret, a, b, layer } => gc_sweep_body(c, secret.as_str(), a.as_str(), b.as_str(), layer, log),
        }
    }

    pub fn region(&self) -> (r: Option<(usize, u64)>)
        ensures
            r == body_region(self@),
    {
        match self {
            Body::Cross { .. } => Some((3, CROSS_BODY_MS)),
            Body::EnvCross { .. } => Some((3, CROSS_BODY_MS)),
            Body::SettingsLive => Some((2, SETTINGS_MS)),
            Body::SettingsRevert => Some((2, REVERT_HALF_MS)),
            Body::SettingsRoll => Some((3, ROLL_MS)),
            _ => None,
        }
    }

    pub fn found(&self, log: &Log) -> (r: Option<String>)
        ensures
            opt(r) == body_found(self@, log@),
    {
        match self {
            Body::Cold { .. } => ready_of(&log.rs),
            Body::Placement { .. } => {
                if log.rs.len() > 0 { placement(&log.rs[0]) } else { None }
            },
            _ => None,
        }
    }
}

// ── the journeys ────────────────────────────────────────────────────────────

pub open spec fn large_push_move(s: StateV, os: Seq<OutcomeV>) -> MoveV<BodyV> {
    let id = "git.push.large"@;
    match s.repo {
        None => if os.len() == 0 { MoveV::Skip { id, why: "no repo"@ } } else { MoveV::End },
        Some(name) => if os.len() == 0 {
            MoveV::Look { body: BodyV::WorkTree { name } }
        } else if !passed(os[0]) {
            if os.len() == 1 { MoveV::Skip { id, why: "stage 2 left no working tree"@ } } else { MoveV::End }
        } else if os.len() == 1 {
            MoveV::Look { body: BodyV::KnownHosts }
        } else if os.len() == 2 {
            MoveV::Step { id, ceiling_ms: PUSH_MS, body: BodyV::LargePush { name, pinned: passed(os[1]) } }
        } else {
            MoveV::End
        },
    }
}

/// `git.push.large`, from the working tree the run already has.
pub fn large_push(s: &State, os: &Vec<Outcome>) -> (m: Move<Body>)
    ensures
        m@ == large_push_move(s@, outcomes(os@)),
{
    let id = "git.push.large";
    match &s.repo {
        None => {
            if os.len() == 0 { skip(id, "no repo") } else { Move::End }
        },
        Some(repo) => {
            if os.len() == 0 {
                look(Body::WorkTree { name: repo.clone() })
            } else if !os[0].passed() {
                if os.len() == 1 { skip(id, "stage 2 left no working tree") } else { Move::End }
            } else if os.len() == 1 {
                look(Body::KnownHosts)
            } else if os.len() == 2 {
                step(id, PUSH_MS, Body::LargePush { name: repo.clone(), pinned: os[1].passed() })
            } else {
                Move::End
            }
        },
    }
}

pub open spec fn large_layer_move(c: RunV, s: StateV, layer: Seq<u8>, os: Seq<OutcomeV>) -> MoveV<BodyV> {
    one_move(
        "reg.push.large"@, PUSH_MS, "no personal token"@,
        (match s.token_value {
            Some(secret) => Some(BodyV::LargeLayer { secret, image: named(c, "-large"@), layer }),
            None => None,
        }),
        os,
    )
}

/// `reg.push.large`.
pub fn large_layer(c: &Run, s: &State, layer: Vec<u8>, os: &Vec<Outcome>) -> (m: Move<Body>)
    ensures
        m@ == large_layer_move(c@, s@, layer@, outcomes(os@)),
{
    let body = match &s.token_value {
        Some(secret) => Some(Body::LargeLayer { secret: secret.clone(), image: name(c, "-large"), layer }),
        None => None,
    };
    one("reg.push.large", PUSH_MS, "no personal token", body, os)
}

pub open spec fn profiles_move(c: RunV, os: Seq<OutcomeV>) -> MoveV<BodyV> {
    if os.len() == 0 {
        MoveV::Step { id: "ws.cold.profile"@, ceiling_ms: COLD_MS, body: BodyV::Cold { name: named(c, "-cold"@) } }
    } else if os.len() == 1 {
        if passed(os[0]) {
            MoveV::Step { id: "ws.profile.reuse"@, ceiling_ms: REUSE_MS, body: BodyV::Warm { name: named(c, "-warm"@) } }
        } else {
            MoveV::Skip { id: "ws.profile.reuse"@, why: "the cold profile never built"@ }
        }
    } else {
        MoveV::End
    }
}

/// `ws.cold.profile` and `ws.profile.reuse`: a set that was never built leaves nothing to reuse.
pub fn profiles(c: &Run, os: &Vec<Outcome>) -> (m: Move<Body>)
    ensures
        m@ == profiles_move(c@, outcomes(os@)),
{
    if os.len() == 0 {
        step("ws.cold.profile", COLD_MS, Body::Cold { name: name(c, "-cold") })
    } else if os.len() == 1 {
        if os[0].passed() {
            step("ws.profile.reuse", REUSE_MS, Body::Warm { name: name(c, "-warm") })
        } else {
            skip("ws.profile.reuse", "the cold profile never built")
        }
    } else {
        Move::End
    }
}

/// Why there is nothing to move, where that is so.
pub open spec fn unmovable(c: RunV, cold: Option<Seq<char>>) -> Option<Seq<char>> {
    if cold is None {
        Some("no cold workspace"@)
    } else if !c.has_kube {
        Some("no kubeconfig"@)
    } else {
        None
    }
}

pub open spec fn cross_node_move(c: RunV, cold: Option<Seq<char>>, os: Seq<OutcomeV>) -> MoveV<BodyV> {
    let moves = "ws.cross.node"@;
    let home = "homes.cross.node"@;
    match unmovable(c, cold) {
        Some(why) => if os.len() == 0 {
            MoveV::Skip { id: moves, why }
        } else if os.len() == 1 {
            MoveV::Skip { id: home, why }
        } else {
            MoveV::End
        },
        None => {
            let ws = cold->0;
            if os.len() == 0 {
                MoveV::Look { body: BodyV::Placement { url: api_at(c, "/v1/workspaces/"@ + ws) } }
            } else {
                match found_in(os[0]) {
                    None => if os.len() == 1 {
                        MoveV::Skip { id: moves, why: "the workspace names no node"@ }
                    } else if os.len() == 2 {
                        MoveV::Skip { id: home, why: "the workspace names no node"@ }
                    } else {
                        MoveV::End
                    },
                    Some(node) => if os.len() == 1 {
                        MoveV::Step { id: moves, ceiling_ms: (CROSS_BODY_MS + 60_000) as u64, body: BodyV::Cross { ws, node } }
                    } else if os.len() == 2 {
                        if passed(os[1]) {
                            MoveV::Step { id: home, ceiling_ms: READ_MS, body: BodyV::HomeRead { ws } }
                        } else {
                            MoveV::Skip { id: home, why: "the workspace never moved"@ }
                        }
                    } else {
                        MoveV::End
                    },
                }
            }
        },
    }
}

/// `ws.cross.node` and `homes.cross.node`: the home only means something when it is read on the other
/// node.
pub fn cross_node(c: &Run, cold: &Option<String>, os: &Vec<Outcome>) -> (m: Move<Body>)
    ensures
        m@ == cross_node_move(c@, opt(*cold), outcomes(os@)),
{
    let moves = "ws.cross.node";
    let home = "homes.cross.node";
    let ws = match cold {
        Some(ws) => {
            if !c.has_kube {
                return if os.len() == 0 {
                    skip(moves, "no kubeconfig")
                } else if os.len() == 1 {
                    skip(home, "no kubeconfig")
                } else {
                    Move::End
                };
            }
            ws
        },
        None => {
            return if os.len() == 0 {
                skip(moves, "no cold workspace")
            } else if os.len() == 1 {
                skip(home, "no cold workspace")
            } else {
                Move::End
            };
        },
    };
    if os.len() == 0 {
        return look(Body::Placement { url: api(c, cat2("/v1/workspaces/", ws.as_str()).as_str()) });
    }
    match os[0].found() {
        None => {
            if os.len() == 1 {
                skip(moves, "the workspace names no node")
            } else if os.len() == 2 {
                skip(home, "the workspace names no node")
            } else {
                Move::End
            }
        },
        Some(node) => {
            if os.len() == 1 {
                step(moves, step_cap(CROSS_BODY_MS), Body::Cross { ws: ws.clone(), node })
            } else if os.len() == 2 {
                if os[1].passed() {
                    step(home, READ_MS, Body::HomeRead { ws: ws.clone() })
                } else {
                    skip(home, "the workspace never moved")
                }
            } else {
                Move::End
            }
        },
    }
}

pub open spec fn env_cross_node_move(c: RunV, s: StateV, os: Seq<OutcomeV>) -> MoveV<BodyV> {
    let id = "env.cross.node"@;
    if !c.has_kube || s.environment is None {
        if os.len() == 0 {
            MoveV::Skip { id, why: if c.has_kube { "no environment"@ } else { "no kubeconfig"@ } }
        } else {
            MoveV::End
        }
    } else {
        let env = s.environment->0;
        if os.len() == 0 {
            MoveV::Look { body: BodyV::Placement { url: api_at(c, "/v1/environments/"@ + env) } }
        } else if os.len() == 1 {
            match found_in(os[0]) {
                None => MoveV::Skip { id, why: "the environment names no node"@ },
                Some(node) => MoveV::Step { id, ceiling_ms: (CROSS_BODY_MS + 60_000) as u64, body: BodyV::EnvCross { env, node } },
            }
        } else {
            MoveV::End
        }
    }
}

/// `env.cross.node`.
pub fn env_cross_node(c: &Run, s: &State, os: &Vec<Outcome>) -> (m: Move<Body>)
    ensures
        m@ == env_cross_node_move(c@, s@, outcomes(os@)),
{
    let id = "env.cross.node";
    if !c.has_kube {
        return if os.len() == 0 { skip(id, "no kubeconfig") } else { Move::End };
    }
    match &s.environment {
        None => {
            if os.len() == 0 { skip(id, "no environment") } else { Move::End }
        },
        Some(env) => {
            if os.len() == 0 {
                look(Body::Placement { url: api(c, cat2("/v1/environments/", env.as_str()).as_str()) })
            } else if os.len() == 1 {
                match os[0].found() {
                    None => skip(id, "the environment names no node"),
                    Some(node) => step(id, step_cap(CROSS_BODY_MS), Body::EnvCross { env: env.clone(), node }),
                }
            } else {
                Move::End
            }
        },
    }
}

pub open spec fn failover_move(c: RunV, os: Seq<OutcomeV>) -> MoveV<BodyV> {
    one_move(
        "cp.failover"@, (FAILOVER_MS + 30_000) as u64,
        (match c.no_home { Some(why) => "no in-cluster client: "@ + why, None => ""@ }),
        if c.no_home is None { Some(BodyV::Failover) } else { None }, os,
    )
}

/// `cp.failover`: the lease is held where the probe itself runs, and not where workspaces do.
pub fn failover(c: &Run, os: &Vec<Outcome>) -> (m: Move<Body>)
    ensures
        m@ == failover_move(c@, outcomes(os@)),
{
    match &c.no_home {
        Some(why) => one("cp.failover", FAILOVER_MS + 30_000, cat2("no in-cluster client: ", why.as_str()).as_str(), None, os),
        None => one("cp.failover", FAILOVER_MS + 30_000, "", Some(Body::Failover), os),
    }
}

pub open spec fn settings_live_move(os: Seq<OutcomeV>) -> MoveV<BodyV> {
    one_move("settings.live"@, (SETTINGS_MS + 60_000) as u64, ""@, Some(BodyV::SettingsLive), os)
}

/// `settings.live`.
pub fn settings_live(os: &Vec<Outcome>) -> (m: Move<Body>)
    ensures
        m@ == settings_live_move(outcomes(os@)),
{
    one("settings.live", step_cap(SETTINGS_MS), "", Some(Body::SettingsLive), os)
}

pub open spec fn settings_revert_move(os: Seq<OutcomeV>) -> MoveV<BodyV> {
    one_move("settings.revert"@, (SETTINGS_MS + 60_000) as u64, ""@, Some(BodyV::SettingsRevert), os)
}

/// `settings.revert`.
pub fn settings_revert(os: &Vec<Outcome>) -> (m: Move<Body>)
    ensures
        m@ == settings_revert_move(outcomes(os@)),
{
    one("settings.revert", step_cap(SETTINGS_MS), "", Some(Body::SettingsRevert), os)
}

/// What the words begin with when the agent was mid-rollout before the probe rolled it.
pub open spec fn somebody_elses_roll() -> Seq<char> {
    NOT_READY@ + ": `"@ + AGENT@ + "` did not settle after "@
}

/// Why a step failed, where that was only that somebody else's roll was going on.
pub open spec fn not_its_own(o: OutcomeV) -> Option<Seq<char>> {
    match failure(o) {
        Some(why) => if starts(why, somebody_elses_roll()) { Some(why) } else { None },
        None => None,
    }
}

pub open spec fn settings_roll_move(os: Seq<OutcomeV>) -> MoveV<BodyV> {
    let id = "settings.roll"@;
    if os.len() == 0 {
        MoveV::Step { id, ceiling_ms: (ROLL_MS + 60_000) as u64, body: BodyV::SettingsRoll }
    } else if os.len() == 1 && not_its_own(os[0]) is Some {
        MoveV::Demote { id, why: not_its_own(os[0])->0 }
    } else {
        MoveV::End
    }
}

/// `settings.roll`. A fleet that was mid-rollout already is in somebody else's: that is a reason to skip,
/// and no breach. A listing that fails stays one.
pub fn settings_roll(os: &Vec<Outcome>) -> (m: Move<Body>)
    ensures
        m@ == settings_roll_move(outcomes(os@)),
{
    if os.len() == 0 {
        return step("settings.roll", step_cap(ROLL_MS), Body::SettingsRoll);
    }
    if os.len() == 1 {
        if let Some(why) = os[0].failure() {
            if starts_with(why.as_str(), cat4(NOT_READY, ": `", AGENT, "` did not settle after ").as_str()) {
                return Move::Demote { id: "settings.roll", why };
            }
        }
    }
    Move::End
}

/// A wait for the agent that gave up on somebody else's roll makes the step a skip; one that could not
/// read the agent leaves it failed.
pub proof fn law_somebody_elses_roll_is_no_breach(c: RunV, why: Seq<char>, found: Option<Seq<char>>, cap_ms: u64)
    ensures
        ({
            let w = WaitV::Agents { url: admin_at(c, "/admin/workloads"@), token: c.admin_jwt, rolling: false, cap_ms };
            let told = within(NOT_READY@, gave_up(w, why));
            settings_roll_move(seq![OutcomeV::Failed { why: told, found }]) == (MoveV::<BodyV>::Demote {
                id: "settings.roll"@,
                why: told,
            })
        }),
        settings_roll_move(
            seq![OutcomeV::Failed { why: within(NOT_READY@, within("could not read the workloads"@, why)), found }],
        ) is End,
{
    let w = WaitV::Agents { url: admin_at(c, "/admin/workloads"@), token: c.admin_jwt, rolling: false, cap_ms };
    let told = within(NOT_READY@, gave_up(w, why));
    let p = somebody_elses_roll();
    reveal_strlit(": ");
    reveal_strlit("`");
    reveal_strlit(": `");
    reveal_strlit("` did not ");
    reveal_strlit("settle");
    reveal_strlit(" after ");
    reveal_strlit("` did not settle after ");
    assert(": "@ + "`"@ =~= ": `"@);
    assert("` did not "@ + "settle"@ + " after "@ =~= "` did not settle after "@);
    assert(told.take(p.len() as int) =~= p);
    assert(told.subrange(0, p.len() as int) =~= told.take(p.len() as int));
    let other = within(NOT_READY@, within("could not read the workloads"@, why));
    reveal_strlit("could not read the workloads");
    let at = NOT_READY@.len() as int + 2;
    assert(other[at] == 'c');
    assert(p[at] == '`');
    if starts(other, p) {
        assert(other.subrange(0, p.len() as int)[at] == other[at]);
    }
}

pub open spec fn gc_sweep_move(c: RunV, s: StateV, layer: Seq<u8>, os: Seq<OutcomeV>) -> MoveV<BodyV> {
    one_move(
        "reg.gc.sweep"@, (GC_PASS_MS + 180_000) as u64, "no personal token"@,
        (match s.token_value {
            Some(secret) => Some(BodyV::GcSweep { secret, a: named(c, "-gca"@), b: named(c, "-gcb"@), layer }),
            None => None,
        }),
        os,
    )
}

/// `reg.gc.sweep`: only that what is still referenced is kept. A blob nothing references goes after
/// longer than any run lasts.
pub fn gc_sweep(c: &Run, s: &State, layer: Vec<u8>, os: &Vec<Outcome>) -> (m: Move<Body>)
    ensures
        m@ == gc_sweep_move(c@, s@, layer@, outcomes(os@)),
{
    let body = match &s.token_value {
        Some(secret) => Some(Body::GcSweep { secret: secret.clone(), a: name(c, "-gca"), b: name(c, "-gcb"), layer }),
        None => None,
    };
    one("reg.gc.sweep", step_cap(GC_PASS_MS + 120_000), "no personal token", body, os)
}

/// The parts of the stage.
#[derive(Clone, Copy, PartialEq, Eq, Structural)]
pub enum Part {
    LargePush,
    LargeLayer,
    Profiles,
    CrossNode,
    EnvCrossNode,
    Failover,
    SettingsLive,
    SettingsRevert,
    SettingsRoll,
    GcSweep,
}

/// What a part needs beyond the run: the cold workspace, and the layers.
pub open spec fn part_move(
    part: Part, c: RunV, s: StateV, cold: Option<Seq<char>>, layer: Seq<u8>, os: Seq<OutcomeV>,
) -> MoveV<BodyV> {
    match part {
        Part::LargePush => large_push_move(s, os),
        Part::LargeLayer => large_layer_move(c, s, layer, os),
        Part::Profiles => profiles_move(c, os),
        Part::CrossNode => cross_node_move(c, cold, os),
        Part::EnvCrossNode => env_cross_node_move(c, s, os),
        Part::Failover => failover_move(c, os),
        Part::SettingsLive => settings_live_move(os),
        Part::SettingsRevert => settings_revert_move(os),
        Part::SettingsRoll => settings_roll_move(os),
        Part::GcSweep => gc_sweep_move(c, s, layer, os),
    }
}

/// The stage, part by part.
pub fn run(part: Part, c: &Run, s: &State, cold: &Option<String>, layer: Vec<u8>, os: &Vec<Outcome>) -> (m: Move<Body>)
    ensures
        m@ == part_move(part, c@, s@, opt(*cold), layer@, outcomes(os@)),
{
    match part {
        Part::LargePush => large_push(s, os),
        Part::LargeLayer => large_layer(c, s, layer, os),
        Part::Profiles => profiles(c, os),
        Part::CrossNode => cross_node(c, cold, os),
        Part::EnvCrossNode => env_cross_node(c, s, os),
        Part::Failover => failover(c, os),
        Part::SettingsLive => settings_live(os),
        Part::SettingsRevert => settings_revert(os),
        Part::SettingsRoll => settings_roll(os),
        Part::GcSweep => gc_sweep(c, s, layer, os),
    }
}

/// The order of the parts.
pub open spec fn next_part(part: Part) -> Option<Part> {
    match part {
        Part::LargePush => Some(Part::LargeLayer),
        Part::LargeLayer => Some(Part::Profiles),
        Part::Profiles => Some(Part::CrossNode),
        Part::CrossNode => Some(Part::EnvCrossNode),
        Part::EnvCrossNode => Some(Part::Failover),
        Part::Failover => Some(Part::SettingsLive),
        Part::SettingsLive => Some(Part::SettingsRevert),
        Part::SettingsRevert => Some(Part::SettingsRoll),
        Part::SettingsRoll => Some(Part::GcSweep),
        Part::GcSweep => None,
    }
}

pub fn after(part: Part) -> (r: Option<Part>)
    ensures
        r == next_part(part),
{
    match part {
        Part::LargePush => Some(Part::LargeLayer),
        Part::LargeLayer => Some(Part::Profiles),
        Part::Profiles => Some(Part::CrossNode),
        Part::CrossNode => Some(Part::EnvCrossNode),
        Part::EnvCrossNode => Some(Part::Failover),
        Part::Failover => Some(Part::SettingsLive),
        Part::SettingsLive => Some(Part::SettingsRevert),
        Part::SettingsRevert => Some(Part::SettingsRoll),
        Part::SettingsRoll => Some(Part::GcSweep),
        Part::GcSweep => None,
    }
}

/// The ids a part owes.
pub open spec fn ids_of(part: Part) -> Seq<Seq<char>> {
    match part {
        Part::LargePush => seq!["git.push.large"@],
        Part::LargeLayer => seq!["reg.push.large"@],
        Part::Profiles => seq!["ws.cold.profile"@, "ws.profile.reuse"@],
        Part::CrossNode => seq!["ws.cross.node"@, "homes.cross.node"@],
        Part::EnvCrossNode => seq!["env.cross.node"@],
        Part::Failover => seq!["cp.failover"@],
        Part::SettingsLive => seq!["settings.live"@],
        Part::SettingsRevert => seq!["settings.revert"@],
        Part::SettingsRoll => seq!["settings.roll"@],
        Part::GcSweep => seq!["reg.gc.sweep"@],
    }
}

/// Whatever the fleet is doing, each part reports its ids exactly once.
pub proof fn law_every_id_is_reported_once(
    part: Part, c: RunV, s: StateV, cold: Option<Seq<char>>, layer: Seq<u8>, os: Seq<OutcomeV>,
)
    ensures
        reports_exactly(|o: Seq<OutcomeV>| part_move(part, c, s, cold, layer, o), os, ids_of(part), 4),
    decreases os.len(),
{
    reveal_with_fuel(reports, 5);
    if os.len() > 3 {
        law_every_id_is_reported_once(part, c, s, cold, layer, os.drop_last());
    }
}

/// Without a repo, a token, a cold workspace or an environment, what needs one is skipped.
pub proof fn law_a_missing_subject_is_skipped(c: RunV, s: StateV, layer: Seq<u8>)
    requires
        s.repo is None,
        s.token_value is None,
        s.environment is None,
    ensures
        part_move(Part::LargePush, c, s, None, layer, seq![]) is Skip,
        part_move(Part::LargeLayer, c, s, None, layer, seq![]) is Skip,
        part_move(Part::CrossNode, c, s, None, layer, seq![]) is Skip,
        part_move(Part::EnvCrossNode, c, s, None, layer, seq![]) is Skip,
        part_move(Part::GcSweep, c, s, None, layer, seq![]) is Skip,
{
}

/// Once a node is cordoned, the body is not over before it was asked to take pods again.
pub proof fn law_a_cordon_is_taken_back(c: RunV, ws: Seq<char>, node: Seq<char>, log: LogV)
    requires
        log.rs.len() >= 3,
        call_error(log.rs[0]) is None,
        lost_of(log.rs[1]) is None,
        call_error(log.rs[2]) is None,
        log.us.len() == 0,
    ensures
        !(cross_next(c, ws, node, log) is Pass),
        !(cross_next(c, ws, node, log) is Fail),
        cross_next(c, ws, node, log) matches NextV::Undo(ask) ==> ask == cordoning(node, false),
        log.cut ==> cross_next(c, ws, node, log) is Undo,
{
}

/// Once a setting was written, the body is not over before the old value was asked for again.
pub proof fn law_a_setting_is_put_back(c: RunV, log: LogV)
    requires
        log.rs.len() >= 2,
        grace_in(log.rs[0]) is Ok,
        call_error(log.rs[1]) is None,
        log.us.len() == 0,
    ensures
        !(settings_live_next(c, log) is Pass),
        !(settings_live_next(c, log) is Fail),
        settings_live_next(c, log) matches NextV::Undo(ask) ==> ask == putting(c, grace_in(log.rs[0])->Ok_0),
        !(settings_revert_next(c, log) is Pass),
        !(settings_revert_next(c, log) is Fail),
{
}

/// A revert that is refused is followed by a write of the old value.
pub proof fn law_a_refused_revert_is_made_good(c: RunV, log: LogV)
    requires
        log.rs.len() >= 2,
        grace_in(log.rs[0]) is Ok,
        call_error(log.rs[1]) is None,
        log.us.len() == 1,
        call_error(log.us[0]) is Some,
    ensures
        settings_revert_next(c, log) == NextV::Undo(putting(c, grace_in(log.rs[0])->Ok_0)),
{
}

/// The cold workspace is known exactly when its profile was built: one that never became ready is none
/// to move.
pub proof fn law_the_cold_workspace_is_known_once_it_is_built(c: RunV, name: Seq<char>, log: LogV)
    ensures
        body_next(c, BodyV::Cold { name }, log) is Pass ==> body_found(BodyV::Cold { name }, log) is Some,
        body_found(BodyV::Cold { name }, log) is Some ==> body_next(c, BodyV::Cold { name }, log) is Pass,
{
}

/// The cold workspace once a part is over: the one the profiles made.
pub open spec fn cold_after(part: Part, cold: Option<Seq<char>>, os: Seq<OutcomeV>) -> Option<Seq<char>> {
    if part == Part::Profiles { learned_by(os, 0) } else { cold }
}

pub fn cold_left(part: Part, cold: &Option<String>, os: &Vec<Outcome>) -> (r: Option<String>)
    ensures
        opt(r) == cold_after(part, opt(*cold), outcomes(os@)),
{
    if part == Part::Profiles { learned(os, 0) } else { cold.clone() }
}

} // verus!
