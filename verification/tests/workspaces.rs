//! Workspaces, their trees, and what a volume occupies.

use slo_stages::json::{obj1, txt};
use slo_stages::probes::{Tried, try_seed};
use slo_stages::run::{Run, State};
use slo_stages::stages::git::BASE_BRANCH;
use slo_stages::stages::git;
use slo_stages::stages::quota_usage::{ID, WRITTEN_MB, not_written, stamped, try_usage, used_bytes, write_command};
use slo_stages::stages::quota_usage;
use slo_stages::stages::ws::{SEED_SUBJECT, USER_KEY_PATH, WORKSPACE_DIR, WS_TOKEN_FILE, tool_answered, ws_tool};
use slo_stages::stages::{trees, ws};
use slo_stages::turn::{Move, Outcome};
use slo_stages::wait::{Turn, Wait};
use slo_stages::wire::{Ask, Log, Next, Payload, Reply, Verb};

/// What was reported of a step.
struct Report {
    id: String,
    ok: bool,
    skipped: bool,
    detail: String,
}

fn run() -> Run {
    let t = |s: &str| s.to_string();
    Run {
        run_id: t("fast-1"),
        suite: t("fast"),
        tenant: t("slo-probe"),
        probe_user: t("slo-probe"),
        probe_email: t("slo-probe@example.com"),
        git_email: t("slo-probe@kloudlite.example"),
        other_user: t("slo-other"),
        other_email: t("slo-other@example.com"),
        probe_jwt: t("probe-jwt"),
        other_jwt: t("other-jwt"),
        admin_jwt: t("admin-jwt"),
        api_url: t("http://api.test/"),
        admin_url: t("http://admin.test"),
        git_url: t("http://git.test"),
        web_url: t("http://web.test"),
        registry: t("cr.example.com"),
        canary_digest: None,
        region: t("r1"),
        ssh_host: t("git.test"),
        ssh_port: 22,
        ssh_hostkey: t("host ssh-ed25519 AAAAC3NzaC1lZDI1NTE5AAAAIPinnedProbeHostKeyForTests"),
        ssh_key_path: t("/keys/id"),
        tmp: t("/tmp/slo"),
        own_ns: t("wt-slo-probe"),
        redis_host: None,
        clickhouse_host: None,
        has_kube: false,
        no_home: None,
        step_ms: 30_000,
        undo_slack_ms: 60_000,
        team_drain_ms: 120_000,
        bench_container: t("bench"),
        ide_log: t("/tmp/ide.log"),
        unenforced: t("network policies are not enforced"),
        decommission_label: t("kloudlite.io/decommission"),
        decommission_status: t("kloudlite.io/decommission-status"),
        drained_prefix: t("drained "),
        removed_at: t("kloudlite.io/removed-at"),
        delete_after: t("kloudlite.io/delete-after"),
        azure: None,
        known_workloads: vec![t("kloudlite-api")],
        sync_secs: 60,
        keys_resync_secs: 300,
    }
}

fn answer(status: u16, text: &str) -> Reply {
    Reply::Answer { status, text: text.to_string() }
}

/// One wait against a world without a clock: each try takes a second.
fn wait(w: &Wait, world: &mut dyn FnMut(&Ask) -> Reply) -> Reply {
    let mut elapsed: u64 = 0;
    let mut last = String::new();
    loop {
        if let Some(words) = w.before(&last, elapsed) {
            return Reply::Lost(words);
        }
        let mut rs: Vec<Reply> = Vec::new();
        let tried = loop {
            match w.probe(elapsed, &rs) {
                Tried::Ask(a) => rs.push(had(&a, world)),
                other => break other,
            }
        };
        elapsed += 1_000;
        if let Tried::NotYet(why) = &tried {
            last = why.clone();
        }
        match w.after(tried, &last, elapsed) {
            Turn::Done => return rs.pop().unwrap_or(Reply::Said(String::new())),
            Turn::Rest { ms } => elapsed += ms,
            Turn::GiveUp(words) => return Reply::Lost(words),
        }
    }
}

fn had(a: &Ask, world: &mut dyn FnMut(&Ask) -> Reply) -> Reply {
    match a {
        Ask::Wait(w) => wait(w, world),
        other => world(other),
    }
}

/// A body, driven to its end.
fn drive(next: &dyn Fn(&Log) -> Next, world: &mut dyn FnMut(&Ask) -> Reply) -> (Result<(), String>, Log) {
    let mut log = Log { rs: Vec::new(), at: Vec::new(), us: Vec::new(), cut: false };
    loop {
        match next(&log) {
            Next::Ask(a) => {
                let r = had(&a, world);
                log.rs.push(r);
                log.at.push(1_000 * log.rs.len() as u64);
            }
            Next::Undo(a) => {
                let r = had(&a, world);
                log.us.push(r);
            }
            Next::Pass => return (Ok(()), log),
            Next::Fail(why) => return (Err(why), log),
        }
        assert!(log.rs.len() + log.us.len() < 2_000, "a body that does not end");
    }
}

/// A journey, walked to its end.
fn walk<B>(
    journey: &dyn Fn(&Vec<Outcome>) -> Move<B>,
    next: &dyn Fn(&B, &Log) -> Next,
    found: &dyn Fn(&B, &Log) -> Option<String>,
    world: &mut dyn FnMut(&Ask) -> Reply,
) -> Vec<Report> {
    walk_outcomes(journey, next, found, world, &mut Vec::new())
}

/// The same, and how each of its moves went.
fn walk_outcomes<B>(
    journey: &dyn Fn(&Vec<Outcome>) -> Move<B>,
    next: &dyn Fn(&B, &Log) -> Next,
    found: &dyn Fn(&B, &Log) -> Option<String>,
    world: &mut dyn FnMut(&Ask) -> Reply,
    os: &mut Vec<Outcome>,
) -> Vec<Report> {
    let mut reports: Vec<Report> = Vec::new();
    loop {
        match journey(os) {
            Move::Skip { id, why } => {
                reports.push(Report { id: id.to_string(), ok: false, skipped: true, detail: why });
                os.push(Outcome::Skipped);
            }
            Move::Step { id, body, .. } => {
                let (r, log) = drive(&|l: &Log| next(&body, l), world);
                let learned = found(&body, &log);
                reports.push(Report {
                    id: id.to_string(),
                    ok: r.is_ok(),
                    skipped: false,
                    detail: r.clone().err().unwrap_or_default(),
                });
                os.push(match r {
                    Ok(()) => Outcome::Passed { found: learned },
                    Err(why) => Outcome::Failed { why, found: learned },
                });
            }
            Move::Demote { id, why } => {
                let last = reports.iter_mut().rev().find(|r| r.id == id).expect("a report to demote");
                last.skipped = true;
                last.ok = false;
                last.detail = why;
                os.push(Outcome::Skipped);
            }
            Move::Look { body } => {
                let (r, log) = drive(&|l: &Log| next(&body, l), world);
                let learned = found(&body, &log);
                os.push(match r {
                    Ok(()) => Outcome::Passed { found: learned },
                    Err(why) => Outcome::Failed { why, found: learned },
                });
            }
            Move::End => return reports,
        }
        assert!(os.len() < 200, "a journey that does not end");
    }
}

fn nothing<B>(_: &B, _: &Log) -> Option<String> {
    None
}

/// A fleet of which nothing can be reached.
fn dark(a: &Ask) -> Reply {
    match a {
        Ask::Sleep { .. } => Reply::Said(String::new()),
        _ => Reply::Lost("nothing is listening".to_string()),
    }
}

/// The url of a call, and the token it carries.
fn url_of(a: &Ask) -> &str {
    match a {
        Ask::Call { url, .. } => url.as_str(),
        _ => "",
    }
}

fn ids(reports: &[Report]) -> Vec<&str> {
    reports.iter().map(|r| r.id.as_str()).collect()
}

fn failed(reports: &[Report]) -> usize {
    reports.iter().filter(|r| !r.ok && !r.skipped).count()
}

fn one<'a>(reports: &'a [Report], id: &str) -> &'a Report {
    let hits: Vec<&Report> = reports.iter().filter(|r| r.id == id).collect();
    assert_eq!(hits.len(), 1, "{id} is reported once");
    hits[0]
}

#[test]
fn the_token_file_is_the_one_the_pod_mounts() {
    assert_eq!(WS_TOKEN_FILE, format!("{}/workspace-token", USER_KEY_PATH));
}

/// The clone is read from the workspace's own volume and held against the subject of the first push.
#[test]
fn the_seed_check_reads_the_workspace_directory_and_stage_twos_subject() {
    assert_eq!(WORKSPACE_DIR, "/home/kl/workspace");
    assert_eq!(BASE_BRANCH, "main");
    let c = run();
    let body = git::Body::PushBase { name: "r".to_string() };
    let mut commits: Vec<Vec<String>> = Vec::new();
    let (r, _) = drive(&|l: &Log| body.next(&c, l), &mut |a: &Ask| {
        if let Ask::Tool { argv, .. } = a {
            if argv.iter().any(|w| w == "commit") {
                commits.push(argv.clone());
            }
        }
        Reply::Said(String::new())
    });
    assert!(r.is_ok(), "{r:?}");
    assert_eq!(commits.len(), 1);
    assert!(commits[0].ends_with(&["commit".to_string(), "-q".to_string(), "-m".to_string(), SEED_SUBJECT.to_string()]), "{commits:?}");
}

/// The file goes to the tree, the one part of the volume the tool's sandbox has.
#[test]
fn the_bytes_are_written_to_the_subvolume_and_flushed() {
    let cmd = write_command();
    assert_eq!(cmd, format!("dd if=/dev/urandom of={WORKSPACE_DIR}/slo-usage.bin bs=1M count={WRITTEN_MB} conv=fsync"));
    assert!(cmd.contains("of=/home/kl/workspace/slo-usage.bin"), "{cmd}");
    assert!(cmd.ends_with("conv=fsync"), "{cmd}");
}

#[test]
fn an_unstamped_volume_is_not_a_zero() {
    let rows = answer(200, r#"[{ "name": "ws-a" }, { "name": "ws-b", "usedBytes": 4096 }]"#);
    assert_eq!(used_bytes("ws-a", &rows), Ok(None));
    assert_eq!(used_bytes("ws-b", &rows), Ok(Some(4096)));
    assert_eq!(used_bytes("ws-c", &rows), Err("the run's own volume ws-c is not in the listing".to_string()));
    assert!(used_bytes("ws-a", &answer(200, "{}")).is_err());
    assert!(matches!(try_usage("ws-a", None, &rows), Tried::NotYet(t) if t == "no stamp at all"));
    assert!(matches!(try_usage("ws-b", None, &rows), Tried::NotYet(t) if t == "4096 bytes"));
    let grown = answer(200, r#"[{ "name": "ws-b", "usedBytes": 209715200 }]"#);
    assert!(matches!(try_usage("ws-b", None, &grown), Tried::Yes));
    assert!(matches!(try_usage("ws-b", Some(209_715_199), &grown), Tried::Yes));
    // One that stood there before has measured nothing.
    assert!(matches!(try_usage("ws-b", Some(209_715_200), &grown), Tried::NotYet(_)));
}

fn usage(c: &Run, world: &mut dyn FnMut(&Ask) -> Reply) -> Vec<Report> {
    walk(
        &|os: &Vec<Outcome>| stamped(c, "ws-1", os),
        &|b: &quota_usage::Body, l: &Log| b.next(c, l),
        &|b: &quota_usage::Body, l: &Log| b.found(c, l),
        world,
    )
}

#[test]
fn it_is_hourly_and_skips_without_a_kubeconfig() {
    let mut c = run();
    assert!(usage(&c, &mut dark).is_empty(), "the fast suite does not walk it");
    c.suite = "hourly".to_string();
    let rs = usage(&c, &mut dark);
    let r = one(&rs, ID);
    assert!(r.skipped && r.detail == "no kubeconfig");
}

#[test]
fn a_stamp_that_never_moves_is_told() {
    let mut c = run();
    c.suite = "hourly".to_string();
    c.has_kube = true;
    let mut volumes = r#"[{"name":"ws-1","usedBytes":4096}]"#.to_string();
    let world = |a: &Ask, volumes: &str| match a {
        Ask::Call { url, .. } => {
            if url.contains("/admin/settings") {
                answer(200, r#"{"spec":{"syncSecs":7}}"#)
            } else {
                answer(200, volumes)
            }
        }
        _ => Reply::Ran { code: 0, out: "200\n{\"exit_code\":0}".to_string(), err: String::new() },
    };
    let rs = usage(&c, &mut |a: &Ask| world(a, &volumes));
    assert_eq!(one(&rs, ID).detail, "200 MB written, but the volume still reads 4096 bytes after 14 s");
    volumes = r#"[{"name":"ws-1","usedBytes":209715200}]"#.to_string();
    let rs = usage(&c, &mut |a: &Ask| world(a, &volumes));
    assert!(!one(&rs, ID).ok, "a volume that read as much before has not been measured");
    let mut reads = 0;
    let rs = usage(&c, &mut |a: &Ask| {
        if matches!(a, Ask::Call { url, .. } if url.ends_with("/v1/volumes")) {
            reads += 1;
        }
        world(a, if reads > 1 { &volumes } else { r#"[{"name":"ws-1","usedBytes":4096}]"# })
    });
    assert!(one(&rs, ID).ok, "{}", one(&rs, ID).detail);
}

#[test]
fn a_tool_answers_with_its_status_first() {
    let ran = |out: &str| Reply::Ran { code: 0, out: out.to_string(), err: String::new() };
    assert_eq!(tool_answered(&ran("200\nbody\nmore")), Ok((200, "body\nmore".to_string())));
    assert_eq!(tool_answered(&ran("200")), Err("no status line in \"200\"".to_string()));
    assert!(tool_answered(&ran("abc\nx")).is_err());
    assert!(tool_answered(&Reply::Ran { code: 7, out: String::new(), err: " boom ".to_string() }).unwrap_err().ends_with("exit 7: boom"));
    assert_eq!(not_written(&ran("200\n{\"exit_code\":0}")), None);
    assert!(not_written(&ran("500\noops")).is_some());
    assert!(not_written(&ran("200\n{\"exit_code\":1}")).is_some());
    // A quote in the arguments does not end the script's own.
    match ws_tool("ws-1", "exec", &obj1("cmd", txt("it's"))) {
        Ask::Exec { ws, script, .. } => {
            assert_eq!(ws, "ws-1");
            assert!(script.contains(r#"{"cmd":"it'\''s"}"#), "{script}");
        }
        _ => panic!("no exec"),
    }
}

#[test]
fn a_field_is_read_off_a_tools_answer() {
    assert_eq!(trees::field(r#"{"id":"p-1"}"#, "id"), Ok("p-1".to_string()));
    assert_eq!(trees::field("{}", "id"), Err("no `id` in {}".to_string()));
    let e = trees::field("oops", "id").unwrap_err();
    assert!(e.starts_with(r#"the tool answered "oops": expected value"#), "{e}");
}

const WS_IDS: [&str; 11] = [
    "ws.packages.add",
    "ws.packages.remove",
    "ws.packages.pin",
    "ws.packages.pin.unknown",
    "ws.packages.pin.uncached",
    "ws.packages.update",
    "ws.packages.pin.lockshape",
    "ws.seeded",
    "ws.seed.failed",
    "key.platform.regenerate",
    "home.travels",
];

fn ws_stage(c: &Run, s: &State, world: &mut dyn FnMut(&Ask) -> Reply) -> Vec<Report> {
    let next = |b: &ws::Body, l: &Log| b.next(c, l);
    let found = |b: &ws::Body, l: &Log| b.found(l);
    let mut all: Vec<Report> = Vec::new();
    all.extend(walk(&|os: &Vec<Outcome>| ws::packages(c, os), &next, &found, world));
    all.extend(walk(&|os: &Vec<Outcome>| ws::pin(c, os), &next, &found, world));
    all.extend(walk(&|os: &Vec<Outcome>| ws::seeded(c, s, os), &next, &found, world));
    all.extend(walk(&|os: &Vec<Outcome>| ws::seed_failed(c, os), &next, &found, world));
    all.extend(walk(&|os: &Vec<Outcome>| ws::platform_key(c, s, os), &next, &found, world));
    all.extend(walk(&|os: &Vec<Outcome>| ws::home_travels(c, s, os), &next, &found, world));
    all
}

#[test]
fn every_id_reports_once_without_a_kubeconfig() {
    let c = run();
    let mut s = State::fresh();
    s.repo = Some("run-fast-1".to_string());
    let rs = ws_stage(&c, &s, &mut dark);
    for id in WS_IDS {
        let r = one(&rs, id);
        assert!(r.skipped && r.detail == "no kubeconfig", "{id}: {}", r.detail);
    }
    assert_eq!(failed(&rs), 0, "a skip is not a failure");
}

#[test]
fn a_refused_create_fails_the_first_id_and_skips_the_dependent_ones() {
    let mut c = run();
    c.has_kube = true;
    let mut s = State::fresh();
    s.repo = Some("run-fast-1".to_string());
    let rs = ws_stage(&c, &s, &mut |a: &Ask| {
        let url = url_of(a);
        if url.ends_with("/v1/workspaces") {
            answer(409, "over quota")
        } else if url.contains("/v1/platform-key") {
            answer(200, r#"{"fingerprint":"SHA256:x"}"#)
        } else if url.contains("/v1/workspaces/") {
            answer(200, r#"{"state":"ready"}"#)
        } else {
            Reply::Lost("nothing is listening".to_string())
        }
    });
    for id in ["ws.packages.add", "ws.packages.pin", "ws.seeded", "ws.seed.failed", "key.platform.regenerate"] {
        let r = one(&rs, id);
        assert!(!r.ok && !r.skipped, "{id}");
        assert!(r.detail.contains("409"), "the refusal is in the detail: {id} {}", r.detail);
    }
    for id in ["ws.packages.remove", "ws.packages.pin.unknown", "ws.packages.pin.uncached", "ws.packages.update", "ws.packages.pin.lockshape", "home.travels"] {
        assert!(one(&rs, id).skipped, "{id}");
    }
    // Nothing anywhere carries a credential.
    for r in &rs {
        assert!(!r.detail.contains(&c.probe_jwt), "a token reached a detail: {}", r.id);
    }
}

#[test]
fn a_tree_is_skipped_without_a_kubeconfig() {
    let c = run();
    let rs = walk(
        &|os: &Vec<Outcome>| trees::trees(&c, os),
        &|b: &trees::Body, l: &Log| b.next(&c, l),
        &|b: &trees::Body, l: &Log| b.found(l),
        &mut dark,
    );
    assert_eq!(ids(&rs), trees::IDS);
    assert_eq!(failed(&rs), 0);
}

#[test]
fn a_tree_that_cannot_be_made_fails_once() {
    let mut c = run();
    c.has_kube = true;
    let rs = walk(
        &|os: &Vec<Outcome>| trees::trees(&c, os),
        &|b: &trees::Body, l: &Log| b.next(&c, l),
        &|b: &trees::Body, l: &Log| b.found(l),
        &mut dark,
    );
    for id in trees::IDS {
        one(&rs, id);
    }
    assert_eq!(failed(&rs), 1);
}

/// A workspace that never goes with a live tree on it has failed the tree's own id.
#[test]
fn a_workspace_wedged_by_a_tree_is_told() {
    let mut c = run();
    c.has_kube = true;
    let mut wedged = true;
    let mut deleted = false;
    let mut close = |wedged: bool| {
        deleted = false;
        let body = trees::Body::Closed { ws: "ws-1".to_string() };
        drive(&|l: &Log| body.next(&c, l), &mut |a: &Ask| match a {
            Ask::Call { verb, url, .. } => {
                if matches!(verb, Verb::Delete) && url.ends_with("/v1/workspaces/ws-1") {
                    deleted = true;
                    return answer(200, "{}");
                }
                if deleted && !wedged {
                    return answer(404, "");
                }
                answer(200, r#"{"id":"ws-1","trees":[{"name":"leftover","ready":true}]}"#)
            }
            _ => Reply::Ran { code: 0, out: String::new(), err: String::new() },
        })
        .0
    };
    let r = close(wedged);
    assert!(r.clone().is_err_and(|why| why.starts_with("the workspace never went with a live tree on it")), "{r:?}");
    wedged = false;
    assert_eq!(close(wedged), Ok(()));
}

#[test]
fn the_cache_and_the_tool_server_report_once() {
    for has_kube in [false, true] {
        let mut c = run();
        c.has_kube = has_kube;
        let next = |b: &ws::Body, l: &Log| b.next(&c, l);
        let found = |b: &ws::Body, l: &Log| b.found(l);
        let mut all: Vec<Report> = Vec::new();
        all.extend(walk(&|os: &Vec<Outcome>| ws::cache_in_tree(&c, os), &next, &found, &mut dark));
        all.extend(walk(&|os: &Vec<Outcome>| ws::ide_server(&c, os), &next, &found, &mut dark));
        for id in ["ws.cache.travels", "ide.serve.up", "ide.exec", "ide.sandbox.active", "ide.exec.https"] {
            let r = one(&all, id);
            if !has_kube {
                assert!(r.skipped && r.detail == "no kubeconfig", "{id}: {}", r.detail);
            }
        }
        assert_eq!(all.len(), 5);
        if has_kube {
            assert_eq!(one(&all, "ide.exec.https").detail, "the tool server never came up");
        }
    }
}

/// The url and the body of a call.
fn sent(a: &Ask) -> (String, String) {
    match a {
        Ask::Call { url, load: Payload::Doc(d), .. } => (url.clone(), d.text()),
        Ask::Call { url, .. } => (url.clone(), String::new()),
        _ => (String::new(), String::new()),
    }
}

#[test]
fn cache_travels_registers_its_volume_before_the_push() {
    let mut c = run();
    c.has_kube = true;
    let body = match ws::cache_in_tree(&c, &Vec::new()) {
        Move::Step { body, .. } => body,
        _ => panic!("no step"),
    };
    let (r, log) = drive(&|l: &Log| body.next(&c, l), &mut |a: &Ask| {
        let url = url_of(a);
        if url.ends_with("/push") {
            answer(500, "")
        } else if url.ends_with("/v1/workspaces") {
            answer(200, r#"{"id":"ws-1"}"#)
        } else if url.contains("/v1/workspaces/") {
            answer(200, r#"{"state":"ready"}"#)
        } else {
            match a {
                Ask::Exec { .. } => Reply::Ran { code: 0, out: String::new(), err: String::new() },
                _ => dark(a),
            }
        }
    });
    assert_eq!(body.found(&log), Some("ws-1".to_string()));
    assert!(r.is_err(), "{r:?}");
}

#[test]
fn cache_travels_pushes_under_the_run_prefix() {
    let mut c = run();
    c.has_kube = true;
    let mut pushed = String::new();
    let want = c.run_id.clone();
    let rs = walk(
        &|os: &Vec<Outcome>| ws::cache_in_tree(&c, os),
        &|b: &ws::Body, l: &Log| b.next(&c, l),
        &|b: &ws::Body, l: &Log| b.found(l),
        &mut |a: &Ask| {
            let (url, text) = sent(a);
            if url.ends_with("/push") {
                pushed = text;
                answer(200, r#"{"id":"snap-1"}"#)
            } else if url.ends_with("/history") {
                answer(200, r#"[{"id":"snap-1","phase":"ready"}]"#)
            } else if url.ends_with("/restore") {
                answer(200, r#"{"id":"ws-2"}"#)
            } else if url.ends_with("/v1/workspaces") {
                answer(200, r#"{"id":"ws-1"}"#)
            } else if url.contains("/v1/workspaces/") {
                answer(200, r#"{"state":"ready"}"#)
            } else {
                match a {
                    Ask::Exec { .. } => Reply::Ran { code: 0, out: want.clone(), err: String::new() },
                    _ => answer(200, "{}"),
                }
            }
        },
    );
    assert!(one(&rs, "ws.cache.travels").ok, "{}", rs[0].detail);
    assert_eq!(pushed, r#"{"message":"run-fast-1-cache"}"#);
}

#[test]
fn a_workspace_that_never_gets_ready_is_not_one_to_work_with() {
    let mut c = run();
    c.has_kube = true;
    let s = State::fresh();
    let rs = ws_stage(&c, &s, &mut |a: &Ask| {
        let url = url_of(a);
        if url.ends_with("/v1/workspaces") {
            answer(200, r#"{"id":"ws-1"}"#)
        } else {
            answer(200, r#"{"state":"starting"}"#)
        }
    });
    let add = one(&rs, "ws.packages.add");
    assert!(add.detail.starts_with("run-fast-1-x never became ready: not there after "), "{}", add.detail);
    assert_eq!(one(&rs, "ws.packages.remove").detail, "the workspace was never created");
    assert!(!one(&rs, "ws.packages.pin").ok);
    for id in ["ws.packages.pin.unknown", "ws.packages.pin.uncached", "ws.packages.update", "ws.packages.pin.lockshape"] {
        let r = one(&rs, id);
        assert!(r.skipped && r.detail == "the pinned workspace was never created", "{id}: {}", r.detail);
    }
}

/// A fleet on which a push and a restore work, and where `left` is in a fresh workspace already.
fn travelled(left: &str) -> Vec<Report> {
    let mut c = run();
    c.has_kube = true;
    let mut s = State::fresh();
    s.ux_workspace = Some("ws-a".to_string());
    let want = c.run_id.clone();
    walk(
        &|os: &Vec<Outcome>| ws::home_travels(&c, &s, os),
        &|b: &ws::Body, l: &Log| b.next(&c, l),
        &|b: &ws::Body, l: &Log| b.found(l),
        &mut |a: &Ask| {
            let url = url_of(a);
            if url.ends_with("/push") {
                answer(200, r#"{"id":"snap-1"}"#)
            } else if url.ends_with("/history") {
                answer(200, r#"[{"id":"snap-1","phase":"ready"}]"#)
            } else if url.ends_with("/restore") || url.ends_with("/v1/workspaces") {
                answer(200, r#"{"id":"ws-2"}"#)
            } else {
                match a {
                    Ask::Exec { script, .. } if script.starts_with("test -e ") => {
                        let code = if script.ends_with(left) { 0 } else { 1 };
                        Reply::Ran { code, out: String::new(), err: String::new() }
                    }
                    Ask::Exec { .. } => Reply::Ran { code: 0, out: want.clone(), err: String::new() },
                    _ => answer(200, r#"{"state":"ready"}"#),
                }
            }
        },
    )
}

#[test]
fn a_fresh_workspace_has_neither_file() {
    let rs = travelled("nothing");
    assert!(one(&rs, "home.travels").ok, "{}", rs[0].detail);
    let rs = travelled(ws::DOTFILE);
    assert!(rs[0].detail.starts_with("a fresh workspace of the same owner already had the dotfile: "), "{}", rs[0].detail);
    let rs = travelled(ws::TREE_FILE);
    assert!(rs[0].detail.starts_with("a fresh workspace of the same owner already had the tree file: "), "{}", rs[0].detail);
}

#[test]
fn a_seeding_that_failed_is_not_ready() {
    let told = |status: &str, message: &str| {
        answer(
            200,
            &format!(r#"{{"status":{{"conditions":[{{"type":"Ready","status":"{status}","reason":"SeedFailed","message":"{message}"}}]}}}}"#),
        )
    };
    assert!(matches!(try_seed("ws-1", &told("False", "see git-seed")), Tried::Yes));
    assert!(matches!(try_seed("ws-1", &told("True", "see git-seed")), Tried::NotYet(_)));
    match try_seed("ws-1", &told("False", "no")) {
        Tried::Broken(why) => assert_eq!(why, "SeedFailed without the log pointer: no"),
        _ => panic!("a failure without its log is told"),
    }
}

#[test]
fn what_the_workspaces_learned_is_left() {
    let s = State::fresh();
    let failed = vec![Outcome::Failed { why: "no cowsay".to_string(), found: Some("ws-1".to_string()) }];
    assert_eq!(ws::packages_leave(&s, &failed).ux_workspace, Some("ws-1".to_string()));
    assert!(ws::packages_leave(&s, &vec![Outcome::Skipped]).ux_workspace.is_none());
    assert_eq!(ws::cache_leaves(&s, &failed).extra_volumes, ["ws-1"]);
    assert!(ws::cache_leaves(&s, &Vec::new()).extra_volumes.is_empty());
}

/// A seeding that failed is explained in the words of what was refused, its number among them, and of what
/// the probe's own key does now.
#[test]
fn a_refused_seeding_tells_its_number_and_the_ssh_check() {
    let mut c = run();
    c.has_kube = true;
    let body = ws::Body::PlatformKey { name: "run-fast-1-key".to_string(), repo: "run-fast-1".to_string() };
    let told = |status: u16, ssh: &str| {
        let (r, _) = drive(&|l: &Log| body.next(&c, l), &mut |a: &Ask| match a {
            Ask::Tool { .. } => Reply::Lost(ssh.to_string()),
            Ask::Call { url, .. } if url.ends_with("/v1/workspaces") => answer(status, "over quota"),
            _ => answer(200, "{}"),
        });
        r.expect_err("the create is refused")
    };
    let words = told(409, "timed out after 6000 ms");
    assert!(words.starts_with("could not create run-fast-1-key: 409 Conflict: over quota; "), "{words}");
    assert!(words.contains("the ssh check timed out"), "{words}");
    let words = told(429, "Permission denied (publickey)");
    assert!(words.contains("429") && words.contains("REFUSES the probe's own key"), "{words}");
}
