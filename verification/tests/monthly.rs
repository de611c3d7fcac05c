//! Backups, drills and the removal of a member.

use chrono::Utc;
use slo_stages::json::Json;
use slo_stages::json::array_of;
use slo_stages::probes::Tried;
use slo_stages::reply::doc;
use slo_stages::run::Run;
use slo_stages::stages::MONTHLY;
use slo_stages::stages::monthly::backups::{Blob, form, is_too_old, missing_slots, slots, slots_due};
use slo_stages::stages::monthly::nodes::{draining_stamp, is_pool_node, is_running, refused_until_drained};
use slo_stages::stages::monthly::older;
use slo_stages::stages::monthly::outages::created;
use slo_stages::stages::monthly::outages::{deny_clickhouse, deny_egress, ipv4, resolve};
use slo_stages::stages::monthly::removed::{CLEANUP_ID, DIR_DOWN_ID, GC_BOUND_SECS, kube, member_removed, prepared, team};
use slo_stages::stages::monthly::removed;
use slo_stages::stages::monthly::{Part, SLOT_SUFFIX, after, step_cap};
use slo_stages::stages::monthly::{nodes, outages};
use slo_stages::stages::monthly;
use slo_stages::turn::{Move, Outcome};
use slo_stages::wait::{Turn, Wait};
use slo_stages::wire::{Ask, Log, Next, Reply};

/// What was reported of a step.
struct Report {
    id: String,
    ok: bool,
    skipped: bool,
    detail: String,
}

fn run() -> Run {
    let t = |s: &str| s.to_string();
    Run {
        run_id: t("fast-1"),
        suite: t("fast"),
        tenant: t("slo-probe"),
        probe_user: t("slo-probe"),
        probe_email: t("slo-probe@example.com"),
        git_email: t("slo-probe@kloudlite.example"),
        other_user: t("slo-other"),
        other_email: t("slo-other@example.com"),
        probe_jwt: t("probe-jwt"),
        other_jwt: t("other-jwt"),
        admin_jwt: t("admin-jwt"),
        api_url: t("http://api.test/"),
        admin_url: t("http://admin.test"),
        git_url: t("http://git.test"),
        web_url: t("http://web.test"),
        registry: t("cr.example.com"),
        canary_digest: None,
        region: t("r1"),
        ssh_host: t("git.test"),
        ssh_port: 22,
        ssh_hostkey: t("host ssh-ed25519 AAAAC3NzaC1lZDI1NTE5AAAAIPinnedProbeHostKeyForTests"),
        ssh_key_path: t("/keys/id"),
        tmp: t("/tmp/slo"),
        own_ns: t("wt-slo-probe"),
        redis_host: None,
        clickhouse_host: None,
        has_kube: false,
        no_home: None,
        step_ms: 30_000,
        undo_slack_ms: 60_000,
        team_drain_ms: 120_000,
        bench_container: t("bench"),
        ide_log: t("/tmp/ide.log"),
        unenforced: t("network policies are not enforced"),
        decommission_label: t("kloudlite.io/decommission"),
        decommission_status: t("kloudlite.io/decommission-status"),
        drained_prefix: t("drained "),
        removed_at: t("kloudlite.io/removed-at"),
        delete_after: t("kloudlite.io/delete-after"),
        azure: None,
        known_workloads: vec![t("kloudlite-api")],
        sync_secs: 60,
        keys_resync_secs: 300,
    }
}

fn answer(status: u16, text: &str) -> Reply {
    Reply::Answer { status, text: text.to_string() }
}

/// A document, read off an answer.
fn json(text: &str) -> Json {
    doc(&answer(200, text)).expect("a document")
}

/// One wait against a world without a clock: each try takes a second.
fn wait(w: &Wait, world: &mut dyn FnMut(&Ask) -> Reply) -> Reply {
    let mut elapsed: u64 = 0;
    let mut last = String::new();
    loop {
        if let Some(words) = w.before(&last, elapsed) {
            return Reply::Lost(words);
        }
        let mut rs: Vec<Reply> = Vec::new();
        let tried = loop {
            match w.probe(elapsed, &rs) {
                Tried::Ask(a) => rs.push(had(&a, world)),
                other => break other,
            }
        };
        elapsed += 1_000;
        if let Tried::NotYet(why) = &tried {
            last = why.clone();
        }
        match w.after(tried, &last, elapsed) {
            Turn::Done => return rs.pop().unwrap_or(Reply::Said(String::new())),
            Turn::Rest { ms } => elapsed += ms,
            Turn::GiveUp(words) => return Reply::Lost(words),
        }
    }
}

fn had(a: &Ask, world: &mut dyn FnMut(&Ask) -> Reply) -> Reply {
    match a {
        Ask::Wait(w) => wait(w, world),
        other => world(other),
    }
}

/// A body, driven to its end.
fn drive(next: &dyn Fn(&Log) -> Next, world: &mut dyn FnMut(&Ask) -> Reply) -> (Result<(), String>, Log) {
    let mut log = Log { rs: Vec::new(), at: Vec::new(), us: Vec::new(), cut: false };
    loop {
        match next(&log) {
            Next::Ask(a) => {
                let r = had(&a, world);
                log.rs.push(r);
                log.at.push(1_000 * log.rs.len() as u64);
            }
            Next::Undo(a) => {
                let r = had(&a, world);
                log.us.push(r);
            }
            Next::Pass => return (Ok(()), log),
            Next::Fail(why) => return (Err(why), log),
        }
        assert!(log.rs.len() + log.us.len() < 2_000, "a body that does not end");
    }
}

/// A journey, walked to its end.
fn walk<B>(
    journey: &dyn Fn(&Vec<Outcome>) -> Move<B>,
    next: &dyn Fn(&B, &Log) -> Next,
    found: &dyn Fn(&B, &Log) -> Option<String>,
    world: &mut dyn FnMut(&Ask) -> Reply,
) -> Vec<Report> {
    walk_outcomes(journey, next, found, world, &mut Vec::new())
}

/// The same, and how each of its moves went.
fn walk_outcomes<B>(
    journey: &dyn Fn(&Vec<Outcome>) -> Move<B>,
    next: &dyn Fn(&B, &Log) -> Next,
    found: &dyn Fn(&B, &Log) -> Option<String>,
    world: &mut dyn FnMut(&Ask) -> Reply,
    os: &mut Vec<Outcome>,
) -> Vec<Report> {
    let mut reports: Vec<Report> = Vec::new();
    loop {
        match journey(os) {
            Move::Skip { id, why } => {
                reports.push(Report { id: id.to_string(), ok: false, skipped: true, detail: why });
                os.push(Outcome::Skipped);
            }
            Move::Step { id, body, .. } => {
                let (r, log) = drive(&|l: &Log| next(&body, l), world);
                let learned = found(&body, &log);
                reports.push(Report {
                    id: id.to_string(),
                    ok: r.is_ok(),
                    skipped: false,
                    detail: r.clone().err().unwrap_or_default(),
                });
                os.push(match r {
                    Ok(()) => Outcome::Passed { found: learned },
                    Err(why) => Outcome::Failed { why, found: learned },
                });
            }
            Move::Demote { id, why } => {
                let last = reports.iter_mut().rev().find(|r| r.id == id).expect("a report to demote");
                last.skipped = true;
                last.ok = false;
                last.detail = why;
                os.push(Outcome::Skipped);
            }
            Move::Look { body } => {
                let (r, log) = drive(&|l: &Log| next(&body, l), world);
                let learned = found(&body, &log);
                os.push(match r {
                    Ok(()) => Outcome::Passed { found: learned },
                    Err(why) => Outcome::Failed { why, found: learned },
                });
            }
            Move::End => return reports,
        }
        assert!(os.len() < 200, "a journey that does not end");
    }
}

fn nothing<B>(_: &B, _: &Log) -> Option<String> {
    None
}

/// A fleet of which nothing can be reached.
fn dark(a: &Ask) -> Reply {
    match a {
        Ask::Sleep { .. } => Reply::Said(String::new()),
        _ => Reply::Lost("nothing is listening".to_string()),
    }
}

/// The url of a call, and the token it carries.
fn url_of(a: &Ask) -> &str {
    match a {
        Ask::Call { url, .. } => url.as_str(),
        _ => "",
    }
}

fn ids(reports: &[Report]) -> Vec<&str> {
    reports.iter().map(|r| r.id.as_str()).collect()
}

fn failed(reports: &[Report]) -> usize {
    reports.iter().filter(|r| !r.ok && !r.skipped).count()
}

fn one<'a>(reports: &'a [Report], id: &str) -> &'a Report {
    let hits: Vec<&Report> = reports.iter().filter(|r| r.id == id).collect();
    assert_eq!(hits.len(), 1, "{id} is reported once");
    hits[0]
}

const DAY_MS: i64 = 86_400_000;

fn at(text: &str) -> i64 {
    chrono::DateTime::parse_from_rfc3339(text).expect("a time").timestamp_millis()
}

fn due_over_time() {
    let now = at("2026-09-06T20:38:00Z");
    assert_eq!(slots_due(now, None).len(), 7, "no encrypted blob: everything is due, and reported");
    assert_eq!(slots_due(now, Some(now - 30 * DAY_MS)).len(), 7);
    assert_eq!(slots_due(now, Some(now - 3_600_000)), vec!["daily-Sun.tgz.enc".to_string()], "installed today: only today");
    assert_eq!(slots_due(now, Some(now - 2 * DAY_MS)), ["daily-Sun", "daily-Sat", "daily-Fri"].map(|d| format!("{d}.tgz.enc")));
}

#[test]
fn monthly_slots_before_the_encrypted_unit_existed_are_not_due_yet() {
    due_over_time();
}

#[test]
fn mod_slots_before_the_encrypted_unit_existed_are_not_due_yet() {
    due_over_time();
}

fn seven_slots() {
    let now = Utc::now();
    let have = slots_due(now.timestamp_millis(), None);
    assert_eq!(have.len(), 7);
    assert!(have.contains(&"daily-Mon.tgz.enc".to_string()));
    assert!(have.contains(&format!("daily-{}{SLOT_SUFFIX}", now.format("%a"))), "today's weekday is one of them");
}

#[test]
fn monthly_the_daily_slots_are_the_seven_the_backup_script_writes() {
    seven_slots();
}

#[test]
fn mod_the_daily_slots_are_the_seven_the_backup_script_writes() {
    seven_slots();
}

/// The addresses a policy leaves out.
fn excepted(spec: &Json) -> Vec<String> {
    let rule = &array_of(spec.get("egress")).expect("egress")[0];
    let to = &array_of(rule.get("to")).expect("to")[0];
    let except = array_of(to.get2("ipBlock", "except")).expect("except");
    except.iter().map(|x| match x {
        Json::Str(t) => t.clone(),
        _ => String::new(),
    }).collect()
}

/// Whether some port of the second rule is that one.
fn has_port(spec: &Json, port: i128) -> bool {
    let rule = &array_of(spec.get("egress")).expect("egress")[1];
    array_of(rule.get("ports")).expect("ports").iter().any(|p| matches!(p.get("port"), Some(Json::Int(n)) if *n == port))
}

fn only_addresses() {
    let spec = deny_egress(&vec!["10.0.0.7".to_string(), "10.0.0.8".to_string()]);
    let except = excepted(&spec);
    assert_eq!(except.len(), 2);
    assert_eq!(except[0], "10.0.0.7/32");
    // DNS stays open: a pod that cannot resolve is a DNS outage, not the Redis one being drilled.
    assert!(has_port(&spec, 53));
}

#[test]
fn monthly_the_redis_policy_only_ever_excepts_addresses() {
    only_addresses();
}

#[test]
fn mod_the_redis_policy_only_ever_excepts_addresses() {
    only_addresses();
}

#[test]
fn the_clickhouse_policy_only_ever_excepts_addresses() {
    let spec = deny_clickhouse(&vec!["10.0.0.9".to_string()]);
    assert_eq!(excepted(&spec), ["10.0.0.9/32"]);
    assert!(has_port(&spec, 53));
}

#[test]
fn monthly_only_this_repos_creation_counts() {
    let feed = json(
        r#"[
            { "kind": "repo_created", "repo": "slo-probe/run-monthly-1-redis" },
            { "kind": "pull_merged", "repo": "slo-probe/run-monthly-1-redis" }
        ]"#,
    );
    assert!(older::created(&feed, "slo-probe/run-monthly-1-redis"));
    assert!(!older::created(&feed, "slo-probe/run-monthly-2-redis"));
}

#[test]
fn mod_only_this_repos_creation_counts() {
    let feed = json(
        r#"[
            { "kind": "repo_created", "repo": "run-monthly-1-redis", "href": "/slo-probe/run-monthly-1-redis" },
            { "kind": "pull_merged", "repo": "run-monthly-1-redis", "href": "/slo-probe/run-monthly-1-redis/pulls/1" }
        ]"#,
    );
    assert!(created(&feed, "slo-probe", "run-monthly-1-redis"));
    assert!(!created(&feed, "slo-probe", "run-monthly-2-redis"));
}

#[test]
fn a_repo_created_row_is_matched_by_bare_name_and_owner_href() {
    let feed = json(
        r#"[
            {"kind": "pull_merged", "repo": "web", "href": "/alice/web/pulls/1"},
            {"kind": "repo_created", "repo": "web", "href": "/alice/web"}
        ]"#,
    );
    assert!(created(&feed, "alice", "web"));
    assert!(!created(&feed, "bob", "web"), "same name under another owner is not this repo");
    assert!(!created(&feed, "alice", "api"));
}

#[test]
fn only_the_pool_label_picks_a_node() {
    assert!(is_pool_node(&json(r#"{"metadata":{"labels":{"kloudlite.io/pool":"true"}}}"#)));
    assert!(!is_pool_node(&json(r#"{"metadata":{"labels":{}}}"#)), "the control plane carries no pool label");
    let old = json(r#"{"metadata":{"labels":{"kloudlite.io/session":"true","kloudlite.io/env":"true"}}}"#);
    assert!(!is_pool_node(&old), "the retired labels no longer qualify a node");
    assert!(older::is_role_node(&old), "they did on an older fleet");
    assert!(!older::is_role_node(&json(r#"{"metadata":{"labels":{"kloudlite.io/pool":"true"}}}"#)));
}

/// The catalogue's "Within 11 minutes" is this bound.
#[test]
fn the_bound_is_the_gc_constants_plus_finalizer_headroom() {
    assert_eq!(GC_BOUND_SECS, 660);
    assert_eq!(GC_BOUND_SECS, 11 * 60);
}

#[test]
fn both_ids_are_catalogued_monthly() {
    assert_eq!(MONTHLY, "13 · Monthly");
    assert_eq!([CLEANUP_ID, DIR_DOWN_ID], ["team.member.removed.cleanup", "team.member.removed.dir_down"]);
}

fn removal(c: &Run, world: &mut dyn FnMut(&Ask) -> Reply) -> Vec<Report> {
    let prepare = removed::Body::Prepare { team: team(c) };
    let (made, log) = drive(&|l: &Log| prepare.next(c, l), world);
    let prep = if made.is_ok() { prepared(&log) } else { None };
    walk(
        &|os: &Vec<Outcome>| member_removed(c, "bench-1", 2_000_000_000, 0, &prep, os),
        &|b: &removed::Body, l: &Log| b.next(c, l),
        &|b: &removed::Body, l: &Log| b.found(l),
        world,
    )
}

#[test]
fn no_kubeconfig_skips_each_id_once() {
    let c = run();
    let rs = removal(&c, &mut dark);
    for id in [CLEANUP_ID, DIR_DOWN_ID] {
        assert!(one(&rs, id).skipped, "{id}");
    }
    assert!(kube(&c).is_err());
}

/// A fleet on which the removal is told, and on which the deletes are on or off.
fn fleet(a: &Ask, deletes: bool, due: &str) -> Reply {
    match a {
        Ask::Call { url, .. } => {
            if url.ends_with("/invites") {
                answer(200, r#"{"token":"inv"}"#)
            } else if url.ends_with("/delete-now") {
                answer(200, if deletes { "{}" } else { r#"{"deletes_enabled":false}"# })
            } else if url.ends_with("/push") {
                answer(200, r#"{"id":"snap-1"}"#)
            } else if url.contains("/history") {
                answer(200, r#"[{"id":"snap-1","phase":"ready"}]"#)
            } else if url.ends_with("/v1/workspaces") {
                answer(200, r#"{"id":"ws-1"}"#)
            } else if url.contains("/v1/workspaces/") {
                answer(200, r#"{"state":"ready"}"#)
            } else if url.contains("/admin/audit") {
                answer(200, r#"{"rows":[{}]}"#)
            } else if url.contains("/v1/bench?team=") {
                answer(200, r#"{"phase":"ready"}"#)
            } else {
                answer(200, "{}")
            }
        }
        Ask::Read { name, .. } => {
            if name == "bench-1" {
                answer(
                    200,
                    &format!(
                        r#"{{"metadata":{{"annotations":{{"kloudlite.io/removed-at":"x"}}}},"systemAnnotations":{{"kloudlite.io/delete-after":"{due}"}}}}"#
                    ),
                )
            } else {
                answer(200, &format!(r#"{{"status":{{"volumeRef":"vol-1"}},"systemAnnotations":{{"kloudlite.io/delete-after":"{due}"}}}}"#))
            }
        }
        _ => Reply::Lost("not asked for here".to_string()),
    }
}

#[test]
fn with_deletes_off_what_is_the_members_is_marked_as_due() {
    let mut c = run();
    c.has_kube = true;
    let mut asked: Vec<String> = Vec::new();
    let rs = removal(&c, &mut |a: &Ask| {
        asked.push(match a {
            Ask::DropMembers { team } => format!("members of {team}"),
            _ => url_of(a).to_string(),
        });
        fleet(a, false, "2026-09-06T20:38:00Z")
    });
    let r = one(&rs, CLEANUP_ID);
    assert!(r.ok, "{}", r.detail);
    assert!(one(&rs, DIR_DOWN_ID).skipped);
    // What was made is taken away: the snapshot after the workspace, the team, and its members last.
    assert_eq!(asked[asked.len() - 2..], ["http://api.test/v1/teams/run-fast-1-rmv", "members of run-fast-1-rmv"]);
    assert!(asked.iter().any(|u| u.ends_with("/v1/volumes/vol-1/snapshots/snap-1")));

    // A mark that is not due is told, and one that is no time is too.
    let rs = removal(&c, &mut |a: &Ask| fleet(a, false, "2999-01-01T00:00:00+02:00"));
    let r = one(&rs, CLEANUP_ID);
    assert_eq!(r.detail, "the Bench's kloudlite.io/delete-after 2999-01-01 00:00:00 +02:00 is not due after delete-now");
    let rs = removal(&c, &mut |a: &Ask| fleet(a, false, "soon"));
    let r = one(&rs, CLEANUP_ID);
    assert!(r.detail.starts_with("the Bench's kloudlite.io/delete-after soon is not RFC 3339: "), "{}", r.detail);
}

#[test]
fn with_deletes_on_what_is_left_is_told() {
    let mut c = run();
    c.has_kube = true;
    let rs = removal(&c, &mut |a: &Ask| fleet(a, true, "2026-09-06T20:38:00Z"));
    let r = one(&rs, CLEANUP_ID);
    assert_eq!(r.detail, "not cleaned within 660 s: the Bench is still there (its bench-folder finalizer has not cleared)");
}

#[test]
fn a_removal_that_cannot_be_prepared_fails_once_and_takes_its_team_away() {
    let mut c = run();
    c.has_kube = true;
    let mut last = String::new();
    let rs = removal(&c, &mut |a: &Ask| {
        last = url_of(a).to_string();
        answer(502, "bad gateway")
    });
    let r = one(&rs, CLEANUP_ID);
    assert_eq!(r.detail, "before the removal: could not create the removal team: 502 Bad Gateway: bad gateway");
    assert_eq!(failed(&rs), 1);
    assert_eq!(last, "http://api.test/v1/teams/run-fast-1-rmv");
    assert_eq!(team(&c), "run-fast-1-rmv");
}

fn stage(c: &Run, world: &mut dyn FnMut(&Ask) -> Reply) -> Vec<Report> {
    let mut all: Vec<Report> = Vec::new();
    let mut part = Some(Part::TarballAge);
    while let Some(p) = part {
        all.extend(walk(
            &|os: &Vec<Outcome>| monthly::run(p, c, 1_788_000_000_000, os),
            &|b: &monthly::Body, l: &Log| b.next(c, l),
            &|b: &monthly::Body, l: &Log| b.found(c, l),
            world,
        ));
        part = after(p);
    }
    all
}

const IDS: [&str; 11] = [
    "bak.tarball.age",
    "bak.daily.slots",
    "bak.versioning",
    "bak.cosmos",
    "drill.dead.node",
    "ws.interrupted",
    "env.clone.interrupted",
    "drill.drain",
    "cluster.decommission",
    "drill.redis.down",
    "drill.clickhouse.down",
];

#[test]
fn monthly_monthly_produces_every_id_once() {
    let rs = stage(&run(), &mut dark);
    assert_eq!(ids(&rs), IDS);
    assert_eq!(failed(&rs), 0, "an unconfigured probe skips; it does not breach");
}

#[test]
fn mod_monthly_produces_every_id_once() {
    let c = run();
    assert!(!c.has_kube && c.redis_host.is_none() && c.azure.is_none());
    let rs = stage(&c, &mut dark);
    assert_eq!(ids(&rs), IDS);
    assert_eq!(failed(&rs), 0, "an unconfigured probe skips; it does not breach");
}

#[test]
fn a_configured_probe_reports_every_id_once() {
    let mut c = run();
    c.has_kube = true;
    c.redis_host = Some("redis.test".to_string());
    c.clickhouse_host = Some("ch.test".to_string());
    let rs = stage(&c, &mut dark);
    assert_eq!(ids(&rs), IDS);
}

#[test]
fn a_policy_is_taken_away_whatever_became_of_the_drill() {
    let c = run();
    let body = outages::Body::ClickhouseDown { ips: "10.0.0.9".to_string(), name: "run-fast-1-chd".to_string() };
    let mut removed: Vec<String> = Vec::new();
    let (r, log) = drive(&|l: &Log| body.next(&c, l), &mut |a: &Ask| match a {
        Ask::Put { .. } => answer(200, "{}"),
        Ask::Remove { ns, name, .. } => {
            removed.push(format!("{ns}/{name}"));
            answer(200, "{}")
        }
        Ask::Sleep { .. } => Reply::Said(String::new()),
        _ => answer(500, "down"),
    });
    assert_eq!(r, Err("`/v1/quota` stopped answering with ClickHouse down: 500 Internal Server Error: down".to_string()));
    assert_eq!(removed, ["kloudlite/slo-drill-clickhouse"]);
    assert_eq!(log.us.len(), 1);
}

#[test]
fn a_decommission_is_undone_whatever_became_of_it() {
    let c = run();
    let body = nodes::Body::Decommission { node: "n1".to_string() };
    let mut asked: Vec<String> = Vec::new();
    let (r, _) = drive(&|l: &Log| body.next(&c, l), &mut |a: &Ask| {
        match a {
            Ask::Change { name, .. } => asked.push(format!("uncordon {name}")),
            Ask::Call { url, .. } => asked.push(url.clone()),
            _ => asked.push("other".to_string()),
        }
        answer(200, "{}")
    });
    assert_eq!(r, Err("a node that has not drained was ALLOWED to be decommissioned".to_string()));
    assert_eq!(
        asked,
        [
            "http://admin.test/admin/clusters/r1/nodes/n1/decommission",
            "uncordon n1",
            "http://admin.test/admin/clusters/r1/nodes/n1/undrain",
        ]
    );
}

#[test]
fn a_missed_backup_is_told() {
    let now = at("2026-09-06T20:38:00Z");
    let blob = |name: &str, mins: i64| Blob { name: name.to_string(), modified: now - mins * 60_000 };
    assert_eq!(is_too_old(now, &vec![blob("hourly-03.tgz.enc", 119)]), None);
    assert_eq!(is_too_old(now, &vec![blob("hourly-03.tgz.enc", 120)]), Some("the newest backup is 120 minutes old".to_string()));
    assert_eq!(is_too_old(now, &vec![]), Some("the backup container holds no hourly tarball at all".to_string()));
    assert!(is_too_old(now, &vec![blob("hourly-03.tgz", 5)]).expect("told").contains("hourly-03.tgz, not .tgz.enc"));
    let all: Vec<Blob> = slots_due(now, None).iter().map(|n| blob(n, 10 * 24 * 60)).collect();
    assert_eq!(missing_slots(now, &all), None);
    assert!(missing_slots(now, &vec![]).expect("told").starts_with("no backup in slot daily-Sun.tgz.enc, daily-Sat.tgz.enc"));
    assert_eq!(slots(&answer(200, r#"[{"name":"a","modified":5}]"#)).map(|v| v.len()), Ok(1));
    let mixed = slots(&answer(200, r#"[{"name":"a","modified":5},{"name":"b","modified":9},{"name":"c","modified":7},{"name":"d","modified":9}]"#));
    let names: Vec<String> = mixed.expect("a listing").into_iter().map(|b| b.name).collect();
    assert_eq!(names, ["b", "d", "c", "a"], "the newest first");
    assert!(slots(&Reply::Lost("no".to_string())).is_err());
}

#[test]
fn a_form_keeps_its_fields_apart() {
    let f = vec![("a".to_string(), "1&b=2".to_string()), ("c".to_string(), "x y".to_string())];
    let text = form(&f);
    assert_eq!(text.matches('&').count(), 1);
    assert_eq!(text.matches('=').count(), 2);
    assert_eq!(text, "a=1%26b%3D2&c=x%20y");
}

/// A node that is drained is not one that is draining.
#[test]
fn only_a_draining_stamp_tells_of_a_drain() {
    let key = "kloudlite.io/decommission-status";
    let node = |stamp: &str| answer(200, &format!(r#"{{"metadata":{{"annotations":{{"{key}":"{stamp}"}}}}}}"#));
    assert!(matches!(draining_stamp("n1", key, &node("draining running=1")), Tried::Yes));
    // The workspace that runs on it has to be counted.
    assert!(matches!(draining_stamp("n1", key, &node("draining running=0 owned=0 copies=1 thin=0")), Tried::NotYet(_)));
    assert!(matches!(draining_stamp("n1", key, &node("draining running=2 owned=1 copies=1 thin=0")), Tried::Yes));
    assert!(matches!(draining_stamp("n1", key, &node("drained 2026-09-06T20:38:00Z")), Tried::NotYet(t) if t.contains("drained")));
    assert!(matches!(draining_stamp("n1", key, &answer(200, "{}")), Tried::NotYet(t) if t == "\"\""));
}

#[test]
fn only_addresses_are_resolved() {
    assert!(ipv4("10.0.0.7") && !ipv4("redis.test.") && !ipv4("256.0.0.1") && !ipv4("1.2.3"));
    let out = Reply::Said("redis.test.\n10.0.0.7\n10.0.0.8\n".to_string());
    assert_eq!(resolve("redis.test", &out), Ok(vec!["10.0.0.7".to_string(), "10.0.0.8".to_string()]));
    assert!(resolve("redis.test", &Reply::Said("cname.test.\n".to_string())).is_err());
}

#[test]
fn only_a_conflict_is_the_guard() {
    assert_eq!(refused_until_drained(&answer(409, "not drained yet")), None);
    assert!(refused_until_drained(&answer(200, "")).is_some());
    assert!(refused_until_drained(&answer(500, "")).is_some());
    assert_eq!(step_cap(600_000), 660_000);
    // Anything but a stopped or failed phase is something a person could be typing into.
    assert!(is_running(Some("Running")) && is_running(Some("Pending")));
    assert!(!is_running(Some("Stopped")) && !is_running(Some("failed")) && !is_running(None));
}

/// What is kept of a team's members goes once the team is gone, and not before.
#[test]
fn a_removed_teams_members_go_with_it() {
    let c = run();
    let body = removed::Body::TeardownTeam { team: "run-fast-1-rmv".to_string() };
    for (status, want) in [(200, 1), (409, 0)] {
        let mut dropped: Vec<String> = Vec::new();
        drive(&|l: &Log| body.next(&c, l), &mut |a: &Ask| match a {
            Ask::DropMembers { team } => {
                dropped.push(team.clone());
                Reply::Said(String::new())
            }
            _ => answer(status, "{}"),
        });
        assert_eq!(dropped, vec!["run-fast-1-rmv"; want]);
    }
}
