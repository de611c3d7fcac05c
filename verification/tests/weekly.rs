//! The weekly stage.

use slo_stages::json::Json;
use slo_stages::json::same_json;
use slo_stages::probes::Tried;
use slo_stages::reply::doc;
use slo_stages::run::{Run, State};
use slo_stages::stages::weekly::{AGENT, BOOT_FIELDS, CHUNK, Part, after, boot_field_of, boot_value, random_piece, try_agent};
use slo_stages::stages::weekly;
use slo_stages::turn::{Move, Outcome};
use slo_stages::wait::{Turn, Wait};
use slo_stages::wire::{Ask, Log, Next, Reply};

/// What was reported of a step.
struct Report {
    id: String,
    ok: bool,
    skipped: bool,
    detail: String,
}

fn run() -> Run {
    let t = |s: &str| s.to_string();
    Run {
        run_id: t("fast-1"),
        suite: t("fast"),
        tenant: t("slo-probe"),
        probe_user: t("slo-probe"),
        probe_email: t("slo-probe@example.com"),
        git_email: t("slo-probe@kloudlite.example"),
        other_user: t("slo-other"),
        other_email: t("slo-other@example.com"),
        probe_jwt: t("probe-jwt"),
        other_jwt: t("other-jwt"),
        admin_jwt: t("admin-jwt"),
        api_url: t("http://api.test/"),
        admin_url: t("http://admin.test"),
        git_url: t("http://git.test"),
        web_url: t("http://web.test"),
        registry: t("cr.example.com"),
        canary_digest: None,
        region: t("r1"),
        ssh_host: t("git.test"),
        ssh_port: 22,
        ssh_hostkey: t("host ssh-ed25519 AAAAC3NzaC1lZDI1NTE5AAAAIPinnedProbeHostKeyForTests"),
        ssh_key_path: t("/keys/id"),
        tmp: t("/tmp/slo"),
        own_ns: t("wt-slo-probe"),
        redis_host: None,
        clickhouse_host: None,
        has_kube: false,
        no_home: None,
        step_ms: 30_000,
        undo_slack_ms: 60_000,
        team_drain_ms: 120_000,
        bench_container: t("bench"),
        ide_log: t("/tmp/ide.log"),
        unenforced: t("network policies are not enforced"),
        decommission_label: t("kloudlite.io/decommission"),
        decommission_status: t("kloudlite.io/decommission-status"),
        drained_prefix: t("drained "),
        removed_at: t("kloudlite.io/removed-at"),
        delete_after: t("kloudlite.io/delete-after"),
        azure: None,
        known_workloads: vec![t("kloudlite-api")],
        sync_secs: 60,
        keys_resync_secs: 300,
    }
}

fn answer(status: u16, text: &str) -> Reply {
    Reply::Answer { status, text: text.to_string() }
}

/// A document, read off an answer.
fn json(text: &str) -> Json {
    doc(&answer(200, text)).expect("a document")
}

/// One wait against a world without a clock: each try takes a second.
fn wait(w: &Wait, world: &mut dyn FnMut(&Ask) -> Reply) -> Reply {
    let mut elapsed: u64 = 0;
    let mut last = String::new();
    loop {
        if let Some(words) = w.before(&last, elapsed) {
            return Reply::Lost(words);
        }
        let mut rs: Vec<Reply> = Vec::new();
        let tried = loop {
            match w.probe(elapsed, &rs) {
                Tried::Ask(a) => rs.push(had(&a, world)),
                other => break other,
            }
        };
        elapsed += 1_000;
        if let Tried::NotYet(why) = &tried {
            last = why.clone();
        }
        match w.after(tried, &last, elapsed) {
            Turn::Done => return rs.pop().unwrap_or(Reply::Said(String::new())),
            Turn::Rest { ms } => elapsed += ms,
            Turn::GiveUp(words) => return Reply::Lost(words),
        }
    }
}

fn had(a: &Ask, world: &mut dyn FnMut(&Ask) -> Reply) -> Reply {
    match a {
        Ask::Wait(w) => wait(w, world),
        other => world(other),
    }
}

/// A body, driven to its end.
fn drive(next: &dyn Fn(&Log) -> Next, world: &mut dyn FnMut(&Ask) -> Reply) -> (Result<(), String>, Log) {
    let mut log = Log { rs: Vec::new(), at: Vec::new(), us: Vec::new(), cut: false };
    loop {
        match next(&log) {
            Next::Ask(a) => {
                let r = had(&a, world);
                log.rs.push(r);
                log.at.push(1_000 * log.rs.len() as u64);
            }
            Next::Undo(a) => {
                let r = had(&a, world);
                log.us.push(r);
            }
            Next::Pass => return (Ok(()), log),
            Next::Fail(why) => return (Err(why), log),
        }
        assert!(log.rs.len() + log.us.len() < 2_000, "a body that does not end");
    }
}

/// A journey, walked to its end.
fn walk<B>(
    journey: &dyn Fn(&Vec<Outcome>) -> Move<B>,
    next: &dyn Fn(&B, &Log) -> Next,
    found: &dyn Fn(&B, &Log) -> Option<String>,
    world: &mut dyn FnMut(&Ask) -> Reply,
) -> Vec<Report> {
    walk_outcomes(journey, next, found, world, &mut Vec::new())
}

/// The same, and how each of its moves went.
fn walk_outcomes<B>(
    journey: &dyn Fn(&Vec<Outcome>) -> Move<B>,
    next: &dyn Fn(&B, &Log) -> Next,
    found: &dyn Fn(&B, &Log) -> Option<String>,
    world: &mut dyn FnMut(&Ask) -> Reply,
    os: &mut Vec<Outcome>,
) -> Vec<Report> {
    let mut reports: Vec<Report> = Vec::new();
    loop {
        match journey(os) {
            Move::Skip { id, why } => {
                reports.push(Report { id: id.to_string(), ok: false, skipped: true, detail: why });
                os.push(Outcome::Skipped);
            }
            Move::Step { id, body, .. } => {
                let (r, log) = drive(&|l: &Log| next(&body, l), world);
                let learned = found(&body, &log);
                reports.push(Report {
                    id: id.to_string(),
                    ok: r.is_ok(),
                    skipped: false,
                    detail: r.clone().err().unwrap_or_default(),
                });
                os.push(match r {
                    Ok(()) => Outcome::Passed { found: learned },
                    Err(why) => Outcome::Failed { why, found: learned },
                });
            }
            Move::Demote { id, why } => {
                let last = reports.iter_mut().rev().find(|r| r.id == id).expect("a report to demote");
                last.skipped = true;
                last.ok = false;
                last.detail = why;
                os.push(Outcome::Skipped);
            }
            Move::Look { body } => {
                let (r, log) = drive(&|l: &Log| next(&body, l), world);
                let learned = found(&body, &log);
                os.push(match r {
                    Ok(()) => Outcome::Passed { found: learned },
                    Err(why) => Outcome::Failed { why, found: learned },
                });
            }
            Move::End => return reports,
        }
        assert!(os.len() < 200, "a journey that does not end");
    }
}

fn nothing<B>(_: &B, _: &Log) -> Option<String> {
    None
}

/// A fleet of which nothing can be reached.
fn dark(a: &Ask) -> Reply {
    match a {
        Ask::Sleep { .. } => Reply::Said(String::new()),
        _ => Reply::Lost("nothing is listening".to_string()),
    }
}

fn ids(reports: &[Report]) -> Vec<&str> {
    reports.iter().map(|r| r.id.as_str()).collect()
}

fn failed(reports: &[Report]) -> usize {
    reports.iter().filter(|r| !r.ok && !r.skipped).count()
}

fn one<'a>(reports: &'a [Report], id: &str) -> &'a Report {
    let hits: Vec<&Report> = reports.iter().filter(|r| r.id == id).collect();
    assert_eq!(hits.len(), 1, "{id} is reported once");
    hits[0]
}

#[test]
fn the_boot_fields_are_the_crds_boot_fields() {
    assert_eq!(BOOT_FIELDS, ["defaultImage", "gitInitImage", "runtimeClass"]);
    assert_eq!(AGENT, "kloudlite-agent");
}

/// The refused save must carry a different value: a save of the stored value changes nothing, and is
/// never held back.
#[test]
fn the_refused_save_is_never_the_value_already_stored() {
    let held = Json::Str("ghcr.io/kloudlite/workspace:v1".to_string());
    assert!(!same_json(&boot_value(&held), &held));
    assert!(!same_json(&boot_value(&Json::Null), &Json::Null));
    // And the first boot field the document has is the one that is tried.
    let held = json(r#"{ "spec": { "gitInitImage": "x", "runtimeClass": "gvisor" } }"#);
    assert_eq!(boot_field_of(&held), Some("gitInitImage"));
    assert!(boot_field_of(&json(r#"{ "spec": { "nodeDeadSecs": 180 } }"#)).is_none());
}

#[test]
fn the_large_file_is_the_size_it_claims_and_is_not_compressible() {
    let size = 3 * CHUNK as usize + 7;
    let mut bytes: Vec<u8> = Vec::new();
    while bytes.len() < size {
        let piece = random_piece((size - bytes.len()) as u64);
        assert!(!piece.is_empty() && piece.len() <= CHUNK as usize);
        bytes.extend(piece);
    }
    assert_eq!(bytes.len(), size);
    // Two chunks that happened to be equal would mean the generator was never asked twice.
    let chunk = CHUNK as usize;
    assert_ne!(bytes[..chunk], bytes[chunk..2 * chunk]);
}

fn stage(c: &Run, s: &State, world: &mut dyn FnMut(&Ask) -> Reply) -> Vec<Report> {
    let mut all: Vec<Report> = Vec::new();
    let mut part = Some(Part::LargePush);
    while let Some(p) = part {
        all.extend(walk(
            &|os: &Vec<Outcome>| weekly::run(p, c, s, &None, vec![7u8; 16], os),
            &|b: &weekly::Body, l: &Log| b.next(c, l),
            &|b: &weekly::Body, l: &Log| b.found(l),
            world,
        ));
        part = after(p);
    }
    all
}

#[test]
fn weekly_produces_every_id_once() {
    let rs = stage(&run(), &State::fresh(), &mut dark);
    assert_eq!(
        ids(&rs),
        [
            "git.push.large",
            "reg.push.large",
            "ws.cold.profile",
            "ws.profile.reuse",
            "ws.cross.node",
            "homes.cross.node",
            "env.cross.node",
            "cp.failover",
            "settings.live",
            "settings.revert",
            "settings.roll",
            "reg.gc.sweep",
        ]
    );
    // A missing precondition is a skip, never a second count of a failure recorded elsewhere.
    for id in ["git.push.large", "reg.push.large", "ws.profile.reuse", "homes.cross.node", "reg.gc.sweep"] {
        assert!(one(&rs, id).skipped, "{id}");
    }
}

/// The node takes pods again whatever became of the body, also where its time was up.
#[test]
fn a_cordon_is_taken_back_when_the_body_is_cut() {
    let c = run();
    let body = weekly::Body::Cross { ws: "ws-1".to_string(), node: "n1".to_string() };
    let (from, cap) = body.region().expect("a stretch of its own");
    let mut log = Log { rs: Vec::new(), at: Vec::new(), us: Vec::new(), cut: false };
    for _ in 0..from {
        assert!(matches!(body.next(&c, &log), Next::Ask(_)));
        log.rs.push(answer(200, r#"{"state":"stopped"}"#));
    }
    assert!(matches!(body.next(&c, &log), Next::Ask(_)), "it goes on while there is time");
    log.cut = true;
    match body.next(&c, &log) {
        Next::Undo(Ask::Change { name, body, .. }) => {
            assert_eq!(name, "n1");
            assert!(matches!(body.get2("spec", "unschedulable"), Some(Json::Bool(false))));
        }
        _ => panic!("the cordon is not taken back"),
    }
    log.us.push(answer(200, "{}"));
    match body.next(&c, &log) {
        Next::Fail(why) => assert_eq!(why, format!("timed out after {cap} ms")),
        _ => panic!("a body that was cut has failed"),
    }
}

#[test]
fn a_cordon_that_could_not_be_made_is_not_taken_back() {
    let c = run();
    let body = weekly::Body::Cross { ws: "ws-1".to_string(), node: "n1".to_string() };
    let (r, log) = drive(&|l: &Log| body.next(&c, l), &mut |a: &Ask| match a {
        Ask::Change { .. } => answer(403, "forbidden"),
        _ => answer(200, r#"{"state":"stopped"}"#),
    });
    assert_eq!(r, Err("could not cordon n1: 403 Forbidden: forbidden".to_string()));
    assert!(log.us.is_empty());
}

#[test]
fn a_setting_that_was_changed_is_put_back() {
    let c = run();
    let mut saved: Vec<String> = Vec::new();
    let rs = walk(
        &|os: &Vec<Outcome>| weekly::settings_live(os),
        &|b: &weekly::Body, l: &Log| b.next(&c, l),
        &|b: &weekly::Body, l: &Log| b.found(l),
        &mut |a: &Ask| {
            if let Ask::Call { load, .. } = a {
                if let slo_stages::wire::Payload::Doc(d) = load {
                    if let Some(Json::Int(n)) = d.get2("spec", "uploadGraceSecs") {
                        saved.push(n.to_string());
                    }
                    if let Some(Json::Int(n)) = d.get("uploadGraceSecs") {
                        saved.push(n.to_string());
                    }
                }
            }
            answer(200, r#"{"spec":{"uploadGraceSecs":3600},"uploadGraceSecs":3600}"#)
        },
    );
    assert_eq!(rs.len(), 1);
    assert!(saved.last().map(String::as_str) == Some("3600"), "{saved:?}");
}

#[test]
fn an_agent_has_settled_when_it_has_just_what_is_desired() {
    let at = |ready: i64, desired: i64| {
        answer(200, &format!(r#"{{"workloads":[{{"name":"{AGENT}","ready":{ready},"desired":{desired}}}]}}"#))
    };
    assert!(matches!(try_agent(false, &at(3, 3)), Tried::Yes));
    assert!(matches!(try_agent(false, &at(4, 3)), Tried::NotYet(_)));
    assert!(matches!(try_agent(false, &at(2, 3)), Tried::NotYet(_)));
    assert!(matches!(try_agent(true, &at(2, 3)), Tried::Yes));
    assert!(matches!(try_agent(true, &at(4, 3)), Tried::NotYet(_)));
}

#[test]
fn somebody_elses_roll_is_a_skip() {
    let c = run();
    let roll = |world: &mut dyn FnMut(&Ask) -> Reply| {
        walk(
            &|os: &Vec<Outcome>| weekly::settings_roll(os),
            &|b: &weekly::Body, l: &Log| b.next(&c, l),
            &|b: &weekly::Body, l: &Log| b.found(l),
            world,
        )
    };
    let rs = roll(&mut |_: &Ask| answer(200, r#"{"workloads":[{"name":"kloudlite-agent","ready":1,"desired":3}]}"#));
    let r = one(&rs, "settings.roll");
    assert!(r.skipped, "{}", r.detail);
    assert!(r.detail.ends_with("ms: ready/desired 1/3"), "{}", r.detail);
    // A console that does not answer is a failure.
    let rs = roll(&mut |_: &Ask| answer(500, "down"));
    let r = one(&rs, "settings.roll");
    assert!(!r.skipped && !r.ok);
    assert!(r.detail.contains("could not read the workloads"), "{}", r.detail);
}

#[test]
fn the_cold_workspace_is_the_one_the_profiles_made() {
    let made = vec![Outcome::Passed { found: Some("ws-1".to_string()) }];
    let before = Some("ws-0".to_string());
    assert_eq!(weekly::cold_left(Part::Profiles, &None, &made), Some("ws-1".to_string()));
    assert_eq!(weekly::cold_left(Part::Profiles, &before, &Vec::new()), None);
    assert_eq!(weekly::cold_left(Part::GcSweep, &before, &made), before);
}
