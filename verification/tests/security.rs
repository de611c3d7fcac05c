//! Refusals: only a refusal passes.

use slo_stages::probes::Tried;
use slo_stages::run::{Run, State};
use slo_stages::stages::security::{Part, after, refs_url, refused, refused_by_admission, refused_by_claim};
use slo_stages::stages::security;
use slo_stages::turn::{Move, Outcome};
use slo_stages::wait::{Turn, Wait};
use slo_stages::wire::{Ask, Log, Next, Reply};

/// What was reported of a step.
struct Report {
    id: String,
    ok: bool,
    skipped: bool,
    detail: String,
}

fn run() -> Run {
    let t = |s: &str| s.to_string();
    Run {
        run_id: t("fast-1"),
        suite: t("fast"),
        tenant: t("slo-probe"),
        probe_user: t("slo-probe"),
        probe_email: t("slo-probe@example.com"),
        git_email: t("slo-probe@kloudlite.example"),
        other_user: t("slo-other"),
        other_email: t("slo-other@example.com"),
        probe_jwt: t("probe-jwt"),
        other_jwt: t("other-jwt"),
        admin_jwt: t("admin-jwt"),
        api_url: t("http://api.test/"),
        admin_url: t("http://admin.test"),
        git_url: t("http://git.test"),
        web_url: t("http://web.test"),
        registry: t("cr.example.com"),
        canary_digest: None,
        region: t("r1"),
        ssh_host: t("git.test"),
        ssh_port: 22,
        ssh_hostkey: t("host ssh-ed25519 AAAAC3NzaC1lZDI1NTE5AAAAIPinnedProbeHostKeyForTests"),
        ssh_key_path: t("/keys/id"),
        tmp: t("/tmp/slo"),
        own_ns: t("wt-slo-probe"),
        redis_host: None,
        clickhouse_host: None,
        has_kube: false,
        no_home: None,
        step_ms: 30_000,
        undo_slack_ms: 60_000,
        team_drain_ms: 120_000,
        bench_container: t("bench"),
        ide_log: t("/tmp/ide.log"),
        unenforced: t("network policies are not enforced"),
        decommission_label: t("kloudlite.io/decommission"),
        decommission_status: t("kloudlite.io/decommission-status"),
        drained_prefix: t("drained "),
        removed_at: t("kloudlite.io/removed-at"),
        delete_after: t("kloudlite.io/delete-after"),
        azure: None,
        known_workloads: vec![t("kloudlite-api")],
        sync_secs: 60,
        keys_resync_secs: 300,
    }
}

fn answer(status: u16, text: &str) -> Reply {
    Reply::Answer { status, text: text.to_string() }
}

/// One wait against a world without a clock: each try takes a second.
fn wait(w: &Wait, world: &mut dyn FnMut(&Ask) -> Reply) -> Reply {
    let mut elapsed: u64 = 0;
    let mut last = String::new();
    loop {
        if let Some(words) = w.before(&last, elapsed) {
            return Reply::Lost(words);
        }
        let mut rs: Vec<Reply> = Vec::new();
        let tried = loop {
            match w.probe(elapsed, &rs) {
                Tried::Ask(a) => rs.push(had(&a, world)),
                other => break other,
            }
        };
        elapsed += 1_000;
        if let Tried::NotYet(why) = &tried {
            last = why.clone();
        }
        match w.after(tried, &last, elapsed) {
            Turn::Done => return rs.pop().unwrap_or(Reply::Said(String::new())),
            Turn::Rest { ms } => elapsed += ms,
            Turn::GiveUp(words) => return Reply::Lost(words),
        }
    }
}

fn had(a: &Ask, world: &mut dyn FnMut(&Ask) -> Reply) -> Reply {
    match a {
        Ask::Wait(w) => wait(w, world),
        other => world(other),
    }
}

/// A body, driven to its end.
fn drive(next: &dyn Fn(&Log) -> Next, world: &mut dyn FnMut(&Ask) -> Reply) -> (Result<(), String>, Log) {
    let mut log = Log { rs: Vec::new(), at: Vec::new(), us: Vec::new(), cut: false };
    loop {
        match next(&log) {
            Next::Ask(a) => {
                let r = had(&a, world);
                log.rs.push(r);
                log.at.push(1_000 * log.rs.len() as u64);
            }
            Next::Undo(a) => {
                let r = had(&a, world);
                log.us.push(r);
            }
            Next::Pass => return (Ok(()), log),
            Next::Fail(why) => return (Err(why), log),
        }
        assert!(log.rs.len() + log.us.len() < 2_000, "a body that does not end");
    }
}

/// A journey, walked to its end.
fn walk<B>(
    journey: &dyn Fn(&Vec<Outcome>) -> Move<B>,
    next: &dyn Fn(&B, &Log) -> Next,
    found: &dyn Fn(&B, &Log) -> Option<String>,
    world: &mut dyn FnMut(&Ask) -> Reply,
) -> Vec<Report> {
    walk_outcomes(journey, next, found, world, &mut Vec::new())
}

/// The same, and how each of its moves went.
fn walk_outcomes<B>(
    journey: &dyn Fn(&Vec<Outcome>) -> Move<B>,
    next: &dyn Fn(&B, &Log) -> Next,
    found: &dyn Fn(&B, &Log) -> Option<String>,
    world: &mut dyn FnMut(&Ask) -> Reply,
    os: &mut Vec<Outcome>,
) -> Vec<Report> {
    let mut reports: Vec<Report> = Vec::new();
    loop {
        match journey(os) {
            Move::Skip { id, why } => {
                reports.push(Report { id: id.to_string(), ok: false, skipped: true, detail: why });
                os.push(Outcome::Skipped);
            }
            Move::Step { id, body, .. } => {
                let (r, log) = drive(&|l: &Log| next(&body, l), world);
                let learned = found(&body, &log);
                reports.push(Report {
                    id: id.to_string(),
                    ok: r.is_ok(),
                    skipped: false,
                    detail: r.clone().err().unwrap_or_default(),
                });
                os.push(match r {
                    Ok(()) => Outcome::Passed { found: learned },
                    Err(why) => Outcome::Failed { why, found: learned },
                });
            }
            Move::Demote { id, why } => {
                let last = reports.iter_mut().rev().find(|r| r.id == id).expect("a report to demote");
                last.skipped = true;
                last.ok = false;
                last.detail = why;
                os.push(Outcome::Skipped);
            }
            Move::Look { body } => {
                let (r, log) = drive(&|l: &Log| next(&body, l), world);
                let learned = found(&body, &log);
                os.push(match r {
                    Ok(()) => Outcome::Passed { found: learned },
                    Err(why) => Outcome::Failed { why, found: learned },
                });
            }
            Move::End => return reports,
        }
        assert!(os.len() < 200, "a journey that does not end");
    }
}

fn nothing<B>(_: &B, _: &Log) -> Option<String> {
    None
}

/// A fleet of which nothing can be reached.
fn dark(a: &Ask) -> Reply {
    match a {
        Ask::Sleep { .. } => Reply::Said(String::new()),
        _ => Reply::Lost("nothing is listening".to_string()),
    }
}

fn ids(reports: &[Report]) -> Vec<&str> {
    reports.iter().map(|r| r.id.as_str()).collect()
}

fn failed(reports: &[Report]) -> usize {
    reports.iter().filter(|r| !r.ok && !r.skipped).count()
}

fn one<'a>(reports: &'a [Report], id: &str) -> &'a Report {
    let hits: Vec<&Report> = reports.iter().filter(|r| r.id == id).collect();
    assert_eq!(hits.len(), 1, "{id} is reported once");
    hits[0]
}

#[test]
fn only_a_4xx_refusal_passes() {
    assert!(refused("x", 403).is_ok());
    assert!(refused("x", 401).is_ok());
    assert!(refused("x", 404).is_ok());
    assert!(refused("x", 200).is_err());
    assert!(refused("x", 500).is_err());
    assert!(refused("x", 502).is_err());
}

#[test]
fn only_an_admission_403_is_a_refusal_of_the_spec_write() {
    assert!(refused_by_admission(403, "denied by validating admission policy").is_ok());
    // Our own missing grant, and our own malformed patch: neither is the platform refusing.
    assert!(refused_by_admission(403, "cannot impersonate resource serviceaccounts").is_err());
    assert!(refused_by_admission(400, "invalid patch").is_err());
    assert!(refused_by_admission(422, "unprocessable").is_err());
}

#[test]
fn the_claim_step_does_not_accept_a_404() {
    assert!(refused_by_claim("x", 403).is_ok());
    assert!(refused_by_claim("x", 404).is_err());
}

#[test]
fn the_handshake_is_read_off_the_git_tier() {
    assert_eq!(refs_url(&run(), "r"), "http://git.test/slo-probe/r.git/info/refs?service=git-upload-pack");
}

fn stage(c: &Run, s: &State, part: Part, world: &mut dyn FnMut(&Ask) -> Reply) -> Vec<Report> {
    walk(
        &|os: &Vec<Outcome>| security::run(part, c, s, os),
        &|b: &security::Body, l: &Log| b.next(c, l),
        &|b: &security::Body, l: &Log| b.found(l),
        world,
    )
}

#[test]
fn security_steps_pass_only_on_refusal() {
    for (code, want_ok) in [(200u16, false), (403, true)] {
        let c = run();
        let mut s = State::fresh();
        s.repo = Some("run-fast-1-repo".to_string());
        s.environment = Some("env-1".to_string());
        let mut world = |_: &Ask| answer(code, "");
        for part in [Part::PrivateRepo, Part::CrossOwner] {
            for r in stage(&c, &s, part, &mut world) {
                assert_eq!(r.ok, want_ok, "{code}: {} {}", r.id, r.detail);
            }
        }
    }
}

#[test]
fn the_user_process_step_wants_a_404_and_nothing_else() {
    for (code, want_ok) in [(404u16, true), (403, false)] {
        let c = run();
        let mut world = |_: &Ask| answer(code, "");
        let rs = stage(&c, &State::fresh(), Part::UserProcess, &mut world);
        assert_eq!(one(&rs, "sec.user.process").ok, want_ok, "{code}");
    }
}

#[test]
fn every_part_of_the_security_stage_reports_once() {
    let c = run();
    let s = State::fresh();
    let mut all: Vec<Report> = Vec::new();
    let mut part = Some(Part::PrivateRepo);
    while let Some(p) = part {
        all.extend(stage(&c, &s, p, &mut dark));
        part = after(p);
    }
    assert_eq!(
        ids(&all),
        ["sec.private.repo", "sec.cross.owner", "sec.admin.claim", "sec.user.process", "sec.agent.spec", "id.token.revoked"]
    );
    // Nothing to read, no cluster and no token: three skips, and two calls that got no answer.
    assert!(one(&all, "sec.agent.spec").skipped);
    assert!(one(&all, "id.token.revoked").skipped);
    assert_eq!(failed(&all), 2);
}

#[test]
fn a_token_is_kept_until_it_is_revoked() {
    let mut s = State::fresh();
    s.token = Some("tok-1".to_string());
    s.repo = Some("run-fast-1".to_string());
    // Without its secret there is nothing to try, and the id is kept for the teardown.
    assert_eq!(security::leaves(&s, security::Part::TokenRevoked).token, Some("tok-1".to_string()));
    s.token_value = Some("secret".to_string());
    assert_eq!(security::leaves(&s, security::Part::AgentSpec).token, Some("tok-1".to_string()));
    let t = security::leaves(&s, security::Part::TokenRevoked);
    assert_eq!((t.token, t.token_value), (None, Some("secret".to_string())));
}
