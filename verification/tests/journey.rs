//! The journey: identity, git, changes and the life of a workspace.

use slo_stages::json::Json;
use slo_stages::probes::Tried;
use slo_stages::reply::doc;
use slo_stages::run::{Run, State};
use slo_stages::stages::git::{AFTER_PUSH, BASE_BRANCH, HEAD_BRANCH, Pin, git_env, oid_of, pin_kind, rendered};
use slo_stages::stages::lifecycle::{
    DELETE_IDS, ENV_IDS, IDS, Part, named_by_a_replica, probe_collect, probe_detach, sync_point, volume_listed,
};
use slo_stages::stages::pr::merge_event;
use slo_stages::stages::{git, identity, lifecycle, pr};
use slo_stages::turn::{Move, Outcome};
use slo_stages::wait::{Turn, Wait};
use slo_stages::want::Want;
use slo_stages::wire::{Ask, Log, Next, Reply};

/// What was reported of a step.
struct Report {
    id: String,
    ok: bool,
    skipped: bool,
    detail: String,
}

fn run() -> Run {
    let t = |s: &str| s.to_string();
    Run {
        run_id: t("fast-1"),
        suite: t("fast"),
        tenant: t("slo-probe"),
        probe_user: t("slo-probe"),
        probe_email: t("slo-probe@example.com"),
        git_email: t("slo-probe@kloudlite.example"),
        other_user: t("slo-other"),
        other_email: t("slo-other@example.com"),
        probe_jwt: t("probe-jwt"),
        other_jwt: t("other-jwt"),
        admin_jwt: t("admin-jwt"),
        api_url: t("http://api.test/"),
        admin_url: t("http://admin.test"),
        git_url: t("http://git.test"),
        web_url: t("http://web.test"),
        registry: t("cr.example.com"),
        canary_digest: None,
        region: t("r1"),
        ssh_host: t("git.test"),
        ssh_port: 22,
        ssh_hostkey: t("host ssh-ed25519 AAAAC3NzaC1lZDI1NTE5AAAAIPinnedProbeHostKeyForTests"),
        ssh_key_path: t("/keys/id"),
        tmp: t("/tmp/slo"),
        own_ns: t("wt-slo-probe"),
        redis_host: None,
        clickhouse_host: None,
        has_kube: false,
        no_home: None,
        step_ms: 30_000,
        undo_slack_ms: 60_000,
        team_drain_ms: 120_000,
        bench_container: t("bench"),
        ide_log: t("/tmp/ide.log"),
        unenforced: t("network policies are not enforced"),
        decommission_label: t("kloudlite.io/decommission"),
        decommission_status: t("kloudlite.io/decommission-status"),
        drained_prefix: t("drained "),
        removed_at: t("kloudlite.io/removed-at"),
        delete_after: t("kloudlite.io/delete-after"),
        azure: None,
        known_workloads: vec![t("kloudlite-api")],
        sync_secs: 60,
        keys_resync_secs: 300,
    }
}

fn answer(status: u16, text: &str) -> Reply {
    Reply::Answer { status, text: text.to_string() }
}

/// A document, read off an answer.
fn json(text: &str) -> Json {
    doc(&answer(200, text)).expect("a document")
}

/// One wait against a world without a clock: each try takes a second.
fn wait(w: &Wait, world: &mut dyn FnMut(&Ask) -> Reply) -> Reply {
    let mut elapsed: u64 = 0;
    let mut last = String::new();
    loop {
        if let Some(words) = w.before(&last, elapsed) {
            return Reply::Lost(words);
        }
        let mut rs: Vec<Reply> = Vec::new();
        let tried = loop {
            match w.probe(elapsed, &rs) {
                Tried::Ask(a) => rs.push(had(&a, world)),
                other => break other,
            }
        };
        elapsed += 1_000;
        if let Tried::NotYet(why) = &tried {
            last = why.clone();
        }
        match w.after(tried, &last, elapsed) {
            Turn::Done => return rs.pop().unwrap_or(Reply::Said(String::new())),
            Turn::Rest { ms } => elapsed += ms,
            Turn::GiveUp(words) => return Reply::Lost(words),
        }
    }
}

fn had(a: &Ask, world: &mut dyn FnMut(&Ask) -> Reply) -> Reply {
    match a {
        Ask::Wait(w) => wait(w, world),
        other => world(other),
    }
}

/// A body, driven to its end.
fn drive(next: &dyn Fn(&Log) -> Next, world: &mut dyn FnMut(&Ask) -> Reply) -> (Result<(), String>, Log) {
    let mut log = Log { rs: Vec::new(), at: Vec::new(), us: Vec::new(), cut: false };
    loop {
        match next(&log) {
            Next::Ask(a) => {
                let r = had(&a, world);
                log.rs.push(r);
                log.at.push(1_000 * log.rs.len() as u64);
            }
            Next::Undo(a) => {
                let r = had(&a, world);
                log.us.push(r);
            }
            Next::Pass => return (Ok(()), log),
            Next::Fail(why) => return (Err(why), log),
        }
        assert!(log.rs.len() + log.us.len() < 2_000, "a body that does not end");
    }
}

/// A journey, walked to its end.
fn walk<B>(
    journey: &dyn Fn(&Vec<Outcome>) -> Move<B>,
    next: &dyn Fn(&B, &Log) -> Next,
    found: &dyn Fn(&B, &Log) -> Option<String>,
    world: &mut dyn FnMut(&Ask) -> Reply,
) -> Vec<Report> {
    walk_outcomes(journey, next, found, world, &mut Vec::new())
}

/// The same, and how each of its moves went.
fn walk_outcomes<B>(
    journey: &dyn Fn(&Vec<Outcome>) -> Move<B>,
    next: &dyn Fn(&B, &Log) -> Next,
    found: &dyn Fn(&B, &Log) -> Option<String>,
    world: &mut dyn FnMut(&Ask) -> Reply,
    os: &mut Vec<Outcome>,
) -> Vec<Report> {
    let mut reports: Vec<Report> = Vec::new();
    loop {
        match journey(os) {
            Move::Skip { id, why } => {
                reports.push(Report { id: id.to_string(), ok: false, skipped: true, detail: why });
                os.push(Outcome::Skipped);
            }
            Move::Step { id, body, .. } => {
                let (r, log) = drive(&|l: &Log| next(&body, l), world);
                let learned = found(&body, &log);
                reports.push(Report {
                    id: id.to_string(),
                    ok: r.is_ok(),
                    skipped: false,
                    detail: r.clone().err().unwrap_or_default(),
                });
                os.push(match r {
                    Ok(()) => Outcome::Passed { found: learned },
                    Err(why) => Outcome::Failed { why, found: learned },
                });
            }
            Move::Demote { id, why } => {
                let last = reports.iter_mut().rev().find(|r| r.id == id).expect("a report to demote");
                last.skipped = true;
                last.ok = false;
                last.detail = why;
                os.push(Outcome::Skipped);
            }
            Move::Look { body } => {
                let (r, log) = drive(&|l: &Log| next(&body, l), world);
                let learned = found(&body, &log);
                os.push(match r {
                    Ok(()) => Outcome::Passed { found: learned },
                    Err(why) => Outcome::Failed { why, found: learned },
                });
            }
            Move::End => return reports,
        }
        assert!(os.len() < 200, "a journey that does not end");
    }
}

fn nothing<B>(_: &B, _: &Log) -> Option<String> {
    None
}

/// A fleet of which nothing can be reached.
fn dark(a: &Ask) -> Reply {
    match a {
        Ask::Sleep { .. } => Reply::Said(String::new()),
        _ => Reply::Lost("nothing is listening".to_string()),
    }
}

/// The url of a call, and the token it carries.
fn url_of(a: &Ask) -> &str {
    match a {
        Ask::Call { url, .. } => url.as_str(),
        _ => "",
    }
}

fn ids(reports: &[Report]) -> Vec<&str> {
    reports.iter().map(|r| r.id.as_str()).collect()
}

fn failed(reports: &[Report]) -> usize {
    reports.iter().filter(|r| !r.ok && !r.skipped).count()
}

fn one<'a>(reports: &'a [Report], id: &str) -> &'a Report {
    let hits: Vec<&Report> = reports.iter().filter(|r| r.id == id).collect();
    assert_eq!(hits.len(), 1, "{id} is reported once");
    hits[0]
}

#[test]
fn only_this_repos_merge_counts() {
    let feed = json(
        r#"[
            { "kind": "pull_merged", "repo": "run-fast-1" },
            { "kind": "commit", "repo": "slo-probe/run-fast-2" }
        ]"#,
    );
    assert!(merge_event(&feed, "run-fast-1"));
    // A commit on another run, and a name this one is only a suffix of, are both wrong.
    assert!(!merge_event(&feed, "run-fast-2"));
    assert!(!merge_event(&feed, "fast-1"));
}

#[test]
fn the_identity_stage_reports_its_four_ids() {
    let c = run();
    let rs = walk(
        &|os: &Vec<Outcome>| identity::run(&c, os),
        &|b: &identity::Body, l: &Log| b.next(&c, l),
        &|b: &identity::Body, l: &Log| b.found(l),
        &mut dark,
    );
    assert_eq!(ids(&rs), identity::IDS);
    assert_eq!(failed(&rs), 4);
}

/// The whole of the git stage, and what it leaves.
fn git_stage(c: &Run, world: &mut dyn FnMut(&Ask) -> Reply) -> (Vec<Report>, State) {
    let next = |b: &git::Body, l: &Log| b.next(c, l);
    let found = |b: &git::Body, l: &Log| b.found(l);
    let mut opened: Vec<Outcome> = Vec::new();
    let mut all = walk_outcomes(&|os: &Vec<Outcome>| git::opening(c, os), &next, &found, world, &mut opened);
    let s = git::leaves(c, &State::fresh(), &opened);
    let mut k = git::Known::first(c, &s);
    for part in git::run(&opened[0], git::was_pushed(&opened)) {
        let mut os: Vec<Outcome> = Vec::new();
        all.extend(walk_outcomes(&|os: &Vec<Outcome>| part.next(c, &k, os), &next, &found, world, &mut os));
        k = k.after(&part, &os);
    }
    (all, s)
}

const GIT_IDS: [&str; 11] = [
    "id.jwt.tiers",
    "git.push.ok",
    "git.push.p95",
    "git.clone.ok",
    "git.clone.p95",
    "ssh.clone.ok",
    "ssh.unregistered.refused",
    "browse.p95",
    "browse.commit.visible",
    "web.repo.page",
    "ssh.hostkey",
];

#[test]
fn git_stage_skips_everything_when_repo_create_fails() {
    let mut c = run();
    c.ssh_hostkey = String::new();
    let (rs, s) = git_stage(&c, &mut |a: &Ask| if url_of(a).ends_with("/v1/repos") { answer(500, "") } else { answer(404, "") });
    assert_eq!(failed(&rs), 0, "a create failure must not be counted a second time");
    for id in GIT_IDS {
        assert!(one(&rs, id).skipped, "{id} should be skipped, not sampled");
    }
    assert!(s.repo.is_none());
}

#[test]
fn a_local_git_failure_fails_the_push_id_rather_than_vanishing() {
    let mut c = run();
    c.ssh_hostkey = String::new();
    let (rs, s) = git_stage(&c, &mut |a: &Ask| match a {
        Ask::Call { url, .. } if url.ends_with("/v1/repos") => answer(201, "{}"),
        Ask::Call { .. } => answer(404, ""),
        _ => Reply::Lost("not a directory".to_string()),
    });
    let push = one(&rs, "git.push.ok");
    assert!(!push.skipped && !push.ok, "the push id must carry the failure");
    assert!(!push.detail.is_empty(), "with the reason");
    for id in AFTER_PUSH {
        assert!(one(&rs, id).skipped, "{id} should be skipped once the push failed");
    }
    for id in GIT_IDS {
        one(&rs, id);
    }
    // One failure among the stage's own ids, not one for each that is downstream. `id.jwt.tiers` fails too,
    // and is another stage's.
    let own = rs.iter().filter(|r| r.id != "id.jwt.tiers" && !r.ok && !r.skipped).count();
    assert_eq!(own, 1);
    assert_eq!(s.repo, Some("run-fast-1".to_string()));
}

#[test]
fn every_id_of_the_git_stage_is_reported_when_all_is_well() {
    let c = run();
    let (rs, _) = git_stage(&c, &mut |a: &Ask| match a {
        Ask::Call { .. } => answer(200, "{}"),
        _ => Reply::Said(String::new()),
    });
    for id in GIT_IDS {
        one(&rs, id);
    }
    assert!(one(&rs, "git.push.ok").ok);
}

/// An ssh that succeeds with a key the fleet has never seen is the refusal not happening, and a failure
/// that is no refusal is no pass.
fn unregistered(git: &dyn Fn() -> Reply) -> Vec<Report> {
    let c = run();
    let k = git::Known { name: "run-fast-1".to_string(), key: None, head: None };
    walk(
        &|os: &Vec<Outcome>| git::unregistered_refused(&k, os),
        &|b: &git::Body, l: &Log| b.next(&c, l),
        &|b: &git::Body, l: &Log| b.found(l),
        &mut |a: &Ask| match a {
            Ask::Tool { program, .. } => {
                if *program == slo_stages::wire::Program::Git {
                    git()
                } else {
                    Reply::Said(String::new())
                }
            }
            _ => Reply::Said(String::new()),
        },
    )
}

#[test]
fn unregistered_key_refusal_is_ok_only_when_ssh_fails() {
    let rs = unregistered(&|| Reply::Said(String::new()));
    let r = one(&rs, "ssh.unregistered.refused");
    assert!(!r.skipped, "it ran");
    assert!(!r.ok, "an accepted unregistered key is a failure");
    assert!(r.detail.contains("unregistered key was allowed"), "{}", r.detail);
    let rs = unregistered(&|| Reply::Lost("git: exit 128: git@host: Permission denied (publickey).".to_string()));
    assert!(one(&rs, "ssh.unregistered.refused").ok, "{}", one(&rs, "ssh.unregistered.refused").detail);
}

#[test]
fn a_failure_that_is_not_a_refusal_is_not_a_pass() {
    let rs = unregistered(&|| Reply::Lost("git: exit 1".to_string()));
    let r = one(&rs, "ssh.unregistered.refused");
    assert!(!r.ok, "a non-refusal failure is not a refusal");
    assert!(r.detail.contains("some other reason"), "{}", r.detail);
}

#[test]
fn a_pin_is_told_by_its_shape() {
    assert!(matches!(pin_kind("SHA256:abc"), Pin::Fingerprint));
    assert!(!matches!(pin_kind("ssh-ed25519 AAAA"), Pin::Fingerprint));
    assert!(matches!(pin_kind("ssh-ed25519 AAAA"), Pin::Key));
    assert!(matches!(pin_kind("ssh-ed25519 AAAA a comment"), Pin::Key));
    assert!(matches!(pin_kind("[git.example.com]:2222 ssh-ed25519 AAAA"), Pin::Line));
    // A host that is named as an algorithm is.
    assert!(matches!(pin_kind("ssh-gw.example.com ssh-ed25519 AAAAC3"), Pin::Line));
}

#[test]
fn a_branch_is_read_off_the_refs() {
    let refs = json(r#"[{"name":"refs/heads/main","oid":"abc"},{"name":"main","oid":"no"}]"#);
    assert_eq!(oid_of(&refs, "main"), Some("abc".to_string()));
    assert_eq!(oid_of(&refs, "gone"), None);
    assert!(rendered(&answer(200, "<a>README.md</a>")).is_none());
    assert!(rendered(&answer(200, "a shell without it")).is_some());
    assert!(rendered(&answer(500, "")).is_some());
}

/// A base that is at the change before anything was asked would tell of a merge that never happened.
#[test]
fn no_merge_is_timed_where_there_is_nothing_to_merge() {
    let c = run();
    let mut s = State::fresh();
    s.repo = Some("run-fast-1".to_string());
    let walk_with = |base: &str| {
        let refs = format!(r#"[{{"name":"refs/heads/{BASE_BRANCH}","oid":"{base}"}},{{"name":"refs/heads/{HEAD_BRANCH}","oid":"bbb"}}]"#);
        walk(
            &|os: &Vec<Outcome>| pr::run(&s, os),
            &|b: &pr::Body, l: &Log| b.next(&c, l),
            &|b: &pr::Body, l: &Log| b.found(l),
            &mut |a: &Ask| if url_of(a).ends_with("/refs") { answer(200, &refs) } else { answer(200, r#"{"number":7}"#) },
        )
    };
    let rs = walk_with("bbb");
    for id in ["pr.merge.p95", "feed.latency"] {
        assert!(one(&rs, id).skipped, "{id}");
    }
    let rs = walk_with("aaa");
    assert!(!one(&rs, "pr.merge.p95").skipped && !one(&rs, "pr.merge.p95").ok, "the base never moves");
}

#[test]
fn a_change_without_a_repo_skips_both_ids() {
    let c = run();
    let s = State::fresh();
    let rs = walk(
        &|os: &Vec<Outcome>| pr::run(&s, os),
        &|b: &pr::Body, l: &Log| b.next(&c, l),
        &|b: &pr::Body, l: &Log| b.found(l),
        &mut dark,
    );
    assert_eq!(ids(&rs), pr::IDS);
    assert_eq!(failed(&rs), 0);
}

/// A volume is looked for in the listing by its id, never by the name that was chosen.
#[test]
fn a_volume_is_looked_for_in_the_listing_by_its_id() {
    let listing = answer(200, r#"[{ "name": "ws-kept", "display_name": "run-fast-1-clone" }]"#);
    assert_eq!(volume_listed("ws-kept", &listing), Ok(true));
    assert_eq!(volume_listed("run-fast-1-clone", &listing), Ok(false));
    assert_eq!(volume_listed("ws-gone", &listing), Ok(false));
    // And "gone" converges on absence rather than on a status.
    let gone = |name: &str| {
        let w = Wait::Unlisted {
            url: "http://api.test/v1/volumes".to_string(),
            token: "t".to_string(),
            name: name.to_string(),
            what: "x".to_string(),
            cap_ms: 50,
        };
        wait(&w, &mut |_: &Ask| answer(200, r#"[{ "name": "ws-kept", "display_name": "run-fast-1-clone" }]"#))
    };
    assert!(!matches!(gone("ws-gone"), Reply::Lost(_)));
    assert!(matches!(gone("ws-kept"), Reply::Lost(_)));
}

fn life(c: &Run, s: &State, world: &mut dyn FnMut(&Ask) -> Reply) -> Vec<Report> {
    let mut all: Vec<Report> = Vec::new();
    for part in [Part::Workspace, Part::Environment, Part::Deletes] {
        all.extend(walk(
            &|os: &Vec<Outcome>| lifecycle::run(part, c, s, os),
            &|b: &lifecycle::Body, l: &Log| b.next(c, l),
            &|b: &lifecycle::Body, l: &Log| b.found(l),
            world,
        ));
    }
    all
}

/// The newest sync point is tried, wherever it stands in the listing.
#[test]
fn the_newest_sync_point_is_tried() {
    let row = |name: &str, volume: &str, snapshot: bool, at: &str| {
        format!(
            r#"{{"metadata":{{"name":"{name}","creationTimestamp":"{at}"}},"spec":{{"volume":"{volume}"}},"isSnapshot":{snapshot}}}"#
        )
    };
    let listed = |rows: &[String]| answer(200, &format!("[{}]", rows.join(",")));
    let all = [
        row("a", "ws-1", false, "2026-09-06T10:00:00Z"),
        row("b", "ws-1", true, "2026-09-06T13:00:00Z"),
        row("c", "ws-1", false, "2026-09-06T12:00:00Z"),
        row("d", "ws-2", false, "2026-09-06T14:00:00Z"),
        row("e", "ws-1", false, "2026-09-06T11:00:00Z"),
    ];
    assert_eq!(sync_point("ws-1", &listed(&all)), Ok("c".to_string()));
    assert_eq!(sync_point("ws-2", &listed(&all)), Ok("d".to_string()));
    assert_eq!(sync_point("ws-1", &listed(&all[1..2])), Err("the volume has no sync point to try deleting".to_string()));
}

/// A replica on the owner's own node is no other node's.
#[test]
fn a_cut_is_held_elsewhere_or_not_at_all() {
    let on = |node: &str| answer(200, &format!(r#"[{{"node":"{node}","status":{{"branches":{{"ws-1":"cut-7"}}}}}}]"#));
    let owner = Some("n1".to_string());
    assert_eq!(named_by_a_replica("ws-1", &owner, &on("n2")), None);
    assert!(named_by_a_replica("ws-1", &owner, &on("n1")).is_some());
    assert!(named_by_a_replica("ws-2", &owner, &on("n2")).is_some());
    assert_eq!(named_by_a_replica("ws-1", &None, &on("n1")), None);
}

/// Commits are made under the one address, whoever the run is.
#[test]
fn git_runs_under_one_identity() {
    let mut c = run();
    c.probe_email = "somebody-else@example.com".to_string();
    let env = git_env(&c);
    assert_eq!(env.len(), 7);
    let at = |k: &str| env.iter().find(|p| p.0 == k).map(|p| p.1.clone());
    assert_eq!(at("GIT_AUTHOR_EMAIL"), Some(c.git_email.clone()));
    assert_eq!(at("GIT_COMMITTER_EMAIL"), Some(c.git_email.clone()));
    assert_eq!(at("GIT_TERMINAL_PROMPT"), Some("0".to_string()));
}

#[test]
fn lifecycle_skips_when_no_workspace_in_state() {
    let rs = life(&run(), &State::fresh(), &mut dark);
    assert_eq!(rs.len(), IDS.len() + ENV_IDS.len() + DELETE_IDS.len());
    for id in IDS {
        let r = one(&rs, id);
        assert!(r.skipped && r.detail == "no workspace", "{id}: {}", r.detail);
    }
    for id in ENV_IDS.iter().chain(DELETE_IDS.iter()) {
        let r = one(&rs, id);
        assert!(r.skipped && r.detail == "no environment", "{id}: {}", r.detail);
    }
    assert_eq!(failed(&rs), 0, "a skip is not a failure");
}

#[test]
fn a_life_against_a_dark_fleet_is_still_reported() {
    let mut s = State::fresh();
    s.workspace = Some("ws-1".to_string());
    s.environment = Some("env-1".to_string());
    let rs = life(&run(), &s, &mut dark);
    for id in IDS.iter().chain(ENV_IDS.iter()).chain(DELETE_IDS.iter()) {
        one(&rs, id);
    }
    assert!(failed(&rs) > 0);
}

#[test]
fn a_wait_tells_what_it_last_saw() {
    let w = Wait::Doc {
        url: "http://api.test/x".to_string(),
        token: "t".to_string(),
        want: Want::Field { key: "state".to_string(), value: "ready".to_string() },
        cap_ms: 5_000,
    };
    match wait(&w, &mut |_: &Ask| answer(200, r#"{"state": "starting"}"#)) {
        Reply::Lost(words) => {
            assert_eq!(words, r#"not there after 3000 ms: the answer does not have it yet; last answer: {"state":"starting"}"#)
        }
        _ => panic!("it was never ready"),
    }
    match wait(&w, &mut |_: &Ask| answer(503, "busy")) {
        Reply::Lost(words) => assert_eq!(words, "not there after 3000 ms: 503 Service Unavailable: busy"),
        _ => panic!("it was never ready"),
    }
    let mut tries = 0;
    let r = wait(&w, &mut |_: &Ask| {
        tries += 1;
        answer(200, if tries < 3 { "{}" } else { r#"{"state":"ready"}"# })
    });
    assert!(!matches!(r, Reply::Lost(_)));
    assert_eq!(tries, 3);
}

/// The bytes of a blob are read as the text they encode.
#[test]
fn a_change_has_landed_once_the_blob_has_its_text() {
    let w = |text: &str| Wait::Landed {
        refs: "http://api.test/refs".to_string(),
        blobs: "http://api.test/blob/".to_string(),
        token: "t".to_string(),
        path: "f.txt".to_string(),
        text: text.to_string(),
        cap_ms: 4_000,
    };
    let mut fleet = |a: &Ask| {
        if url_of(a).ends_with("/refs") {
            answer(200, r#"[{"name":"refs/heads/main","oid":"abc"}]"#)
        } else {
            answer(200, r#"{"bytes_base64":"aGVsbG8="}"#)
        }
    };
    assert!(!matches!(wait(&w("hello"), &mut fleet), Reply::Lost(_)));
    match wait(&w("other"), &mut fleet) {
        Reply::Lost(words) => assert!(words.contains(r#"holds "hello", not "other""#), "{words}"),
        _ => panic!("it holds another text"),
    }
    let mut torn = |a: &Ask| {
        if url_of(a).ends_with("/refs") {
            answer(200, r#"[{"name":"refs/heads/main","oid":"abc"}]"#)
        } else {
            answer(200, r#"{"bytes_base64":"aGVs*G8="}"#)
        }
    };
    match wait(&w("hello"), &mut torn) {
        Reply::Lost(words) => assert!(words.contains("the blob is not base64: Invalid symbol 42, offset 4"), "{words}"),
        _ => panic!("it is no base64"),
    }
}

#[test]
fn an_answer_is_a_document_or_a_reason() {
    assert!(matches!(doc(&answer(204, "")), Ok(Json::Null)));
    assert!(matches!(doc(&answer(200, "not json")), Ok(Json::Null)));
    let long = "x".repeat(400);
    assert_eq!(doc(&answer(500, &long)).err(), Some(format!("500 Internal Server Error: {}", "x".repeat(300))));
    assert_eq!(doc(&Reply::Lost("refused".to_string())).err(), Some("refused".to_string()));
}

#[test]
fn what_cannot_be_listed_has_not_gone() {
    let pass = |r: Reply| probe_detach("http://api.test/v1/workspaces", "jwt", "run-fast-1", &vec![r]);
    assert!(matches!(pass(answer(200, "[]")), Tried::Yes));
    assert!(matches!(pass(answer(200, r#"[{"id":"ws-9","name":"mine"}]"#)), Tried::Yes));
    match pass(answer(500, "down")) {
        Tried::NotYet(why) => assert_eq!(why, "an unknown number of"),
        _ => panic!("a listing that failed is asked for again"),
    }
    match pass(answer(200, r#"[{"id":"ws-1","name":"run-fast-1-x"}]"#)) {
        Tried::Ask(Ask::Call { url, .. }) => assert_eq!(url, "http://api.test/v1/workspaces/ws-1"),
        _ => panic!("what is left is deleted"),
    }
}

#[test]
fn a_volume_that_cannot_be_read_may_still_be_owned() {
    let left = 60_000;
    let pass = |r: Reply| {
        let rs = vec![answer(200, "[]"), answer(200, "[]"), r];
        probe_collect("http://api.test/v1/workspaces", "http://api.test/v1/volumes/v", "jwt", "run-fast-1", "v", left, &rs)
    };
    assert!(matches!(pass(answer(500, "down")), Tried::Still));
    assert!(matches!(pass(answer(404, "")), Tried::Ask(Ask::Wait(_))));
    assert!(matches!(pass(answer(200, r#"{"metadata":{"ownerReferences":[]}}"#)), Tried::Ask(Ask::Wait(_))));
    assert!(matches!(pass(answer(200, r#"{"metadata":{"ownerReferences":[{"name":"ws-1"}]}}"#)), Tried::Broken(_)));
}

#[test]
fn a_deleted_snapshot_is_out_of_the_history() {
    let c = run();
    let body = lifecycle::Body::SnapDelete { volume: "vol-1".to_string(), snapshot: "snap-1".to_string() };
    let over = |history: Reply| {
        let log = Log {
            rs: vec![answer(200, "{}"), answer(200, "[]"), history],
            at: vec![0, 0, 0],
            us: Vec::new(),
            cut: false,
        };
        body.next(&c, &log)
    };
    assert!(matches!(over(answer(404, "no such volume")), Next::Pass));
    assert!(matches!(over(answer(200, r#"[{"id":"snap-2"}]"#)), Next::Pass));
    match over(answer(200, r#"[{"id":"snap-1"}]"#)) {
        Next::Fail(why) => assert_eq!(why, "the deleted snapshot is still in the history"),
        _ => panic!("a snapshot that is still listed was not deleted"),
    }
}

#[test]
fn a_kept_volume_has_its_history() {
    let c = run();
    let body = lifecycle::Body::WtDelete { env: "env-1".to_string(), volume: "vol-1".to_string(), clone: None };
    let deleted = |listed: &str, history: u16| {
        drive(&|l: &Log| body.next(&c, l), &mut |a: &Ask| {
            let url = match a {
                Ask::Call { url, .. } => url.as_str(),
                _ => "",
            };
            if url.ends_with("/history") {
                answer(history, "[]")
            } else if url.ends_with("/v1/volumes") {
                answer(200, listed)
            } else if url.ends_with("/v1/environments") {
                answer(200, "[]")
            } else {
                match a {
                    Ask::Call { verb: slo_stages::wire::Verb::Delete, .. } => answer(202, ""),
                    _ => answer(404, ""),
                }
            }
        })
        .0
    };
    assert_eq!(deleted(r#"[{"name":"vol-1"}]"#, 200), Ok(()));
    assert!(deleted("[]", 200).is_err_and(|why| why.contains("taken with the environment")));
    assert!(deleted(r#"[{"name":"vol-1"}]"#, 500).is_err_and(|why| why.starts_with("the volume was kept, but not its history")));
}

/// A look for the volume gets five seconds, or what is left where that is less.
#[test]
fn a_look_gets_no_longer_than_is_left() {
    let cap = |left: u64| {
        let rs = vec![answer(200, "[]"), answer(200, "[]"), answer(404, "")];
        match probe_collect("http://api.test/v1/workspaces", "http://api.test/v1/volumes/v", "jwt", "run-fast-1", "v", left, &rs) {
            Tried::Ask(Ask::Wait(Wait::Vanished { cap_ms, .. })) => cap_ms,
            _ => panic!("the volume is looked for"),
        }
    };
    assert_eq!(cap(60_000), 5_000);
    assert_eq!(cap(1_200), 1_200);
    let w = Wait::Collected {
        workspaces: "http://api.test/v1/workspaces".to_string(),
        base: "http://api.test/v1/volumes/v".to_string(),
        token: "jwt".to_string(),
        prefix: "run-fast-1".to_string(),
        volume: "v".to_string(),
        cap_ms: 90_000,
    };
    let rs = vec![answer(200, "[]"), answer(200, "[]"), answer(404, "")];
    assert!(matches!(w.probe(88_000, &rs), Tried::Ask(Ask::Wait(Wait::Vanished { cap_ms: 2_000, .. }))));
    assert!(matches!(w.probe(91_000, &rs), Tried::Ask(Ask::Wait(Wait::Vanished { cap_ms: 0, .. }))));
}

#[test]
fn what_the_identity_stage_learned_is_left() {
    let log = |text: &str| Log { rs: vec![answer(200, text)], at: vec![0], us: Vec::new(), cut: false };
    let learned = |t: &str| Outcome::Passed { found: Some(t.to_string()) };
    let s = State::fresh();
    let os = vec![learned("-"), learned("-"), learned("-"), learned("key-1"), learned("cli-1")];
    let t = identity::leaves(&s, &log(r#"{"_id":"tok-1","token":"secret"}"#), &os);
    assert_eq!((t.token, t.token_value), (Some("tok-1".to_string()), Some("secret".to_string())));
    assert_eq!((t.key, t.cli_token), (Some("key-1".to_string()), Some("cli-1".to_string())));
    // A token without its secret is still there to be revoked.
    let lost = Outcome::Failed { why: "no".to_string(), found: Some("key-1".to_string()) };
    let t = identity::leaves(&s, &log(r#"{"_id":"tok-1"}"#), &vec![learned("-"), learned("-"), learned("-"), lost]);
    assert_eq!((t.token, t.token_value), (Some("tok-1".to_string()), None));
    assert_eq!((t.key, t.cli_token), (None, None));
    let none = Log { rs: Vec::new(), at: Vec::new(), us: Vec::new(), cut: false };
    assert!(identity::leaves(&s, &none, &Vec::new()).token.is_none());
}

#[test]
fn a_restored_environments_volume_is_remembered() {
    let s = State::fresh();
    let failed = |found: Option<&str>| Outcome::Failed { why: "slow".to_string(), found: found.map(str::to_string) };
    let os = || vec![failed(None), failed(None), failed(None), failed(Some("env-9"))];
    assert_eq!(lifecycle::leaves(&s, Part::Environment, &os()).extra_volumes, ["env-9"]);
    assert!(lifecycle::leaves(&s, Part::Workspace, &os()).extra_volumes.is_empty());
}
