//! Sweeping: what is claimed, and what goes.

use slo_stages::probes::Tried;
use slo_stages::run::{Run, State};
use slo_stages::stages::sweep::{Body, Claim, boot, stale, swept, teardown};
use slo_stages::turn::{Move, Outcome};
use slo_stages::wait::{Turn, Wait};
use slo_stages::wire::Verb;
use slo_stages::wire::{Ask, Log, Next, Reply};

/// What was reported of a step.
struct Report {
    id: String,
    ok: bool,
    skipped: bool,
    detail: String,
}

fn run() -> Run {
    let t = |s: &str| s.to_string();
    Run {
        run_id: t("fast-1"),
        suite: t("fast"),
        tenant: t("slo-probe"),
        probe_user: t("slo-probe"),
        probe_email: t("slo-probe@example.com"),
        git_email: t("slo-probe@kloudlite.example"),
        other_user: t("slo-other"),
        other_email: t("slo-other@example.com"),
        probe_jwt: t("probe-jwt"),
        other_jwt: t("other-jwt"),
        admin_jwt: t("admin-jwt"),
        api_url: t("http://api.test/"),
        admin_url: t("http://admin.test"),
        git_url: t("http://git.test"),
        web_url: t("http://web.test"),
        registry: t("cr.example.com"),
        canary_digest: None,
        region: t("r1"),
        ssh_host: t("git.test"),
        ssh_port: 22,
        ssh_hostkey: t("host ssh-ed25519 AAAAC3NzaC1lZDI1NTE5AAAAIPinnedProbeHostKeyForTests"),
        ssh_key_path: t("/keys/id"),
        tmp: t("/tmp/slo"),
        own_ns: t("wt-slo-probe"),
        redis_host: None,
        clickhouse_host: None,
        has_kube: false,
        no_home: None,
        step_ms: 30_000,
        undo_slack_ms: 60_000,
        team_drain_ms: 120_000,
        bench_container: t("bench"),
        ide_log: t("/tmp/ide.log"),
        unenforced: t("network policies are not enforced"),
        decommission_label: t("kloudlite.io/decommission"),
        decommission_status: t("kloudlite.io/decommission-status"),
        drained_prefix: t("drained "),
        removed_at: t("kloudlite.io/removed-at"),
        delete_after: t("kloudlite.io/delete-after"),
        azure: None,
        known_workloads: vec![t("kloudlite-api")],
        sync_secs: 60,
        keys_resync_secs: 300,
    }
}

fn answer(status: u16, text: &str) -> Reply {
    Reply::Answer { status, text: text.to_string() }
}

/// One wait against a world without a clock: each try takes a second.
fn wait(w: &Wait, world: &mut dyn FnMut(&Ask) -> Reply) -> Reply {
    let mut elapsed: u64 = 0;
    let mut last = String::new();
    loop {
        if let Some(words) = w.before(&last, elapsed) {
            return Reply::Lost(words);
        }
        let mut rs: Vec<Reply> = Vec::new();
        let tried = loop {
            match w.probe(elapsed, &rs) {
                Tried::Ask(a) => rs.push(had(&a, world)),
                other => break other,
            }
        };
        elapsed += 1_000;
        if let Tried::NotYet(why) = &tried {
            last = why.clone();
        }
        match w.after(tried, &last, elapsed) {
            Turn::Done => return rs.pop().unwrap_or(Reply::Said(String::new())),
            Turn::Rest { ms } => elapsed += ms,
            Turn::GiveUp(words) => return Reply::Lost(words),
        }
    }
}

fn had(a: &Ask, world: &mut dyn FnMut(&Ask) -> Reply) -> Reply {
    match a {
        Ask::Wait(w) => wait(w, world),
        other => world(other),
    }
}

/// A body, driven to its end.
fn drive(next: &dyn Fn(&Log) -> Next, world: &mut dyn FnMut(&Ask) -> Reply) -> (Result<(), String>, Log) {
    let mut log = Log { rs: Vec::new(), at: Vec::new(), us: Vec::new(), cut: false };
    loop {
        match next(&log) {
            Next::Ask(a) => {
                let r = had(&a, world);
                log.rs.push(r);
                log.at.push(1_000 * log.rs.len() as u64);
            }
            Next::Undo(a) => {
                let r = had(&a, world);
                log.us.push(r);
            }
            Next::Pass => return (Ok(()), log),
            Next::Fail(why) => return (Err(why), log),
        }
        assert!(log.rs.len() + log.us.len() < 2_000, "a body that does not end");
    }
}

/// A journey, walked to its end.
fn walk<B>(
    journey: &dyn Fn(&Vec<Outcome>) -> Move<B>,
    next: &dyn Fn(&B, &Log) -> Next,
    found: &dyn Fn(&B, &Log) -> Option<String>,
    world: &mut dyn FnMut(&Ask) -> Reply,
) -> Vec<Report> {
    walk_outcomes(journey, next, found, world, &mut Vec::new())
}

/// The same, and how each of its moves went.
fn walk_outcomes<B>(
    journey: &dyn Fn(&Vec<Outcome>) -> Move<B>,
    next: &dyn Fn(&B, &Log) -> Next,
    found: &dyn Fn(&B, &Log) -> Option<String>,
    world: &mut dyn FnMut(&Ask) -> Reply,
    os: &mut Vec<Outcome>,
) -> Vec<Report> {
    let mut reports: Vec<Report> = Vec::new();
    loop {
        match journey(os) {
            Move::Skip { id, why } => {
                reports.push(Report { id: id.to_string(), ok: false, skipped: true, detail: why });
                os.push(Outcome::Skipped);
            }
            Move::Step { id, body, .. } => {
                let (r, log) = drive(&|l: &Log| next(&body, l), world);
                let learned = found(&body, &log);
                reports.push(Report {
                    id: id.to_string(),
                    ok: r.is_ok(),
                    skipped: false,
                    detail: r.clone().err().unwrap_or_default(),
                });
                os.push(match r {
                    Ok(()) => Outcome::Passed { found: learned },
                    Err(why) => Outcome::Failed { why, found: learned },
                });
            }
            Move::Demote { id, why } => {
                let last = reports.iter_mut().rev().find(|r| r.id == id).expect("a report to demote");
                last.skipped = true;
                last.ok = false;
                last.detail = why;
                os.push(Outcome::Skipped);
            }
            Move::Look { body } => {
                let (r, log) = drive(&|l: &Log| next(&body, l), world);
                let learned = found(&body, &log);
                os.push(match r {
                    Ok(()) => Outcome::Passed { found: learned },
                    Err(why) => Outcome::Failed { why, found: learned },
                });
            }
            Move::End => return reports,
        }
        assert!(os.len() < 200, "a journey that does not end");
    }
}

fn nothing<B>(_: &B, _: &Log) -> Option<String> {
    None
}

/// A fleet of which nothing can be reached.
fn dark(a: &Ask) -> Reply {
    match a {
        Ask::Sleep { .. } => Reply::Said(String::new()),
        _ => Reply::Lost("nothing is listening".to_string()),
    }
}

fn one<'a>(reports: &'a [Report], id: &str) -> &'a Report {
    let hits: Vec<&Report> = reports.iter().filter(|r| r.id == id).collect();
    assert_eq!(hits.len(), 1, "{id} is reported once");
    hits[0]
}

#[test]
fn only_a_probe_object_past_the_deadline_is_stale() {
    let now = 10_000_000;
    assert!(stale("run-fast-1000-repo", now));
    assert!(stale("run-fast-1000", now));
    // Inside the window: another run may still be using it.
    assert!(!stale(&format!("run-fast-{}-repo", now - 60), now));
    // Not ours, and not shaped like ours.
    assert!(!stale("someones-repo", now));
    // A prefix somebody else chose: the suite segment is not one of ours.
    assert!(!stale("run-anything-1000-x", now));
    assert!(!stale("run-fast-notanumber-repo", now));
    assert!(!stale("run-fast", now));
}

#[test]
fn an_object_is_stale_from_the_second_after_its_hour() {
    assert!(!stale("run-weekly-1000", 4_600));
    assert!(stale("run-weekly-1000", 4_601));
    assert!(stale("run-hourly-1000", i64::MAX));
    assert!(!stale("run-monthly-9223372036854775807", i64::MIN));
}

/// A fleet with two repos of the run's, one of somebody else's, and an image.
fn fleet(a: &Ask, asked: &mut Vec<String>) -> Reply {
    if let Ask::Call { verb, url, .. } = a {
        let verb = match verb {
            Verb::Get => "GET",
            Verb::Post => "POST",
            Verb::Put => "PUT",
            Verb::Patch => "PATCH",
            Verb::Delete => "DELETE",
        };
        if verb != "GET" {
            asked.push(format!("{verb} {url}"));
        }
        if verb == "GET" && url.contains("/v1/repos") {
            return answer(200, r#"[{"name":"run-fast-1"},{"name":"mine"},{"name":"run-fast-1-b"},{"id":"no name"}]"#);
        }
        if verb == "GET" && url.contains("/v1/volumes") {
            return answer(200, r#"[{"name":"ws-1","display_name":"run-fast-1-ws"},{"name":"run-fast-1","display_name":"other"}]"#);
        }
        if verb == "GET" && url.contains("/v1/requests") {
            return answer(200, r#"[{"id":"req-1","reason":"run-fast-1 asks"}]"#);
        }
        if verb == "GET" && url.ends_with("/images") {
            return answer(200, r#"[{"name":"run-fast-1-img"}]"#);
        }
        if verb == "GET" {
            return answer(200, "[]");
        }
        if url.ends_with("/v1/repos/slo-probe/run-fast-1-b") {
            return answer(409, "in use");
        }
    } else if let Ask::Remove { ns, name, .. } = a {
        asked.push(format!("REMOVE {ns}/{name}"));
    } else {
        asked.push("other".to_string());
    }
    answer(200, "{}")
}

#[test]
fn a_teardown_hides_and_then_takes_what_the_run_made() {
    let c = run();
    let mut s = State::fresh();
    s.repo = Some("run-fast-1".to_string());
    s.env_volume = Some("vol-1".to_string());
    s.env_snapshot = Some("snap-1".to_string());
    s.token = Some("tok-1".to_string());
    s.cli_token = Some("cli-1".to_string());
    s.extra_volumes = vec!["vol-2".to_string(), "vol-3".to_string()];
    let mut asked: Vec<String> = Vec::new();
    let rs = walk(
        &|os: &Vec<Outcome>| teardown(&c, &s, os),
        &|b: &Body, l: &Log| b.next(&c, l),
        &|b: &Body, l: &Log| b.found(l),
        &mut |a: &Ask| fleet(a, &mut asked),
    );
    assert!(rs.is_empty(), "a sweep reports nothing");
    assert_eq!(
        asked,
        [
            "REMOVE kloudlite/slo-drill-redis",
            "REMOVE kloudlite/slo-drill-clickhouse",
            "PATCH http://api.test/v1/repos/slo-probe/run-fast-1",
            "POST http://api.test/api/slo-probe/run-fast-1-img/imagevisibility?visibility=private",
            "DELETE http://api.test/v1/volumes/ws-1",
            "DELETE http://api.test/v1/repos/slo-probe/run-fast-1",
            "DELETE http://api.test/v1/repos/slo-probe/run-fast-1-b",
            "POST http://admin.test/admin/requests/req-1/deny",
            "POST http://api.test/api/slo-probe/run-fast-1-img/imagedelete",
            "DELETE http://api.test/v1/volumes/vol-1/snapshots/snap-1",
            "DELETE http://api.test/v1/volumes/vol-1",
            "DELETE http://api.test/v1/tokens/tok-1",
            "DELETE http://api.test/v1/cli/tokens/cli-1",
            "DELETE http://api.test/v1/volumes/vol-2",
            "DELETE http://api.test/v1/volumes/vol-3",
        ]
    );
}

#[test]
fn a_sweep_counts_what_went() {
    let c = run();
    let claim = || Claim::Prefix { prefix: "run-fast-1".to_string() };
    let body = Body::Sweep { claim: claim() };
    let mut asked: Vec<String> = Vec::new();
    let (r, log) = drive(&|l: &Log| body.next(&c, l), &mut |a: &Ask| fleet(a, &mut asked));
    assert!(r.is_ok());
    // Five are claimed, and the delete of one is refused.
    assert_eq!(asked.len(), 5);
    assert_eq!(swept(&claim(), &log), 4);
    assert_eq!(body.found(&log), Some("4".to_string()));
}

#[test]
fn a_boot_takes_only_what_is_stale() {
    let c = run();
    let mut asked: Vec<String> = Vec::new();
    walk(
        &|os: &Vec<Outcome>| boot(10_000_000, os),
        &|b: &Body, l: &Log| b.next(&c, l),
        &|b: &Body, l: &Log| b.found(l),
        &mut |a: &Ask| fleet(a, &mut asked),
    );
    assert_eq!(
        asked,
        [
            "other",
            "DELETE http://api.test/v1/volumes/ws-1",
            "DELETE http://api.test/v1/repos/slo-probe/run-fast-1",
            "DELETE http://api.test/v1/repos/slo-probe/run-fast-1-b",
            "POST http://api.test/api/slo-probe/run-fast-1-img/imagedelete",
        ]
    );
}

#[test]
fn a_fleet_that_cannot_be_listed_loses_nothing() {
    let c = run();
    let body = Body::Sweep { claim: Claim::Stale { now: 10_000_000 } };
    let (r, log) = drive(&|l: &Log| body.next(&c, l), &mut dark);
    assert!(r.is_ok());
    assert_eq!(log.rs.len(), 9);
    assert_eq!(body.found(&log), Some("0".to_string()));
}

#[test]
fn a_keys_fingerprint_is_one_segment_of_its_path() {
    let c = run();
    let body = Body::Sweep { claim: Claim::Prefix { prefix: "run-fast-1".to_string() } };
    let mut asked: Vec<String> = Vec::new();
    let (r, _) = drive(
        &|l: &Log| body.next(&c, l),
        &mut |a: &Ask| match a {
            Ask::Call { verb: Verb::Get, url, .. } if url.contains("/v1/keys") => {
                answer(200, r#"[{"_id":"SHA256:a/b+c","name":"run-fast-1"}]"#)
            }
            Ask::Call { verb: Verb::Delete, url, .. } => {
                asked.push(url.clone());
                answer(200, "{}")
            }
            _ => answer(200, "[]"),
        },
    );
    assert!(r.is_ok());
    assert_eq!(asked, ["http://api.test/v1/keys/SHA256:a%2Fb%2Bc"]);
}
