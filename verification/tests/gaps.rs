//! The smaller journeys.

use slo_stages::json::Json;
use slo_stages::probes::Tried;
use slo_stages::reply::doc;
use slo_stages::run::{Run, State};
use slo_stages::stages::gaps::console::denied_with;
use slo_stages::stages::gaps::identity::has_host_block;
use slo_stages::stages::gaps::path_seg;
use slo_stages::stages::gaps::teams;
use slo_stages::stages::gaps::{console, identity, pulls, surface};
use slo_stages::turn::{Move, Outcome};
use slo_stages::wait::{Turn, Wait};
use slo_stages::wire::{Ask, Log, Next, Reply, Verb};

/// What was reported of a step.
struct Report {
    id: String,
    ok: bool,
    skipped: bool,
    detail: String,
}

fn run() -> Run {
    let t = |s: &str| s.to_string();
    Run {
        run_id: t("fast-1"),
        suite: t("fast"),
        tenant: t("slo-probe"),
        probe_user: t("slo-probe"),
        probe_email: t("slo-probe@example.com"),
        git_email: t("slo-probe@kloudlite.example"),
        other_user: t("slo-other"),
        other_email: t("slo-other@example.com"),
        probe_jwt: t("probe-jwt"),
        other_jwt: t("other-jwt"),
        admin_jwt: t("admin-jwt"),
        api_url: t("http://api.test/"),
        admin_url: t("http://admin.test"),
        git_url: t("http://git.test"),
        web_url: t("http://web.test"),
        registry: t("cr.example.com"),
        canary_digest: None,
        region: t("r1"),
        ssh_host: t("git.test"),
        ssh_port: 22,
        ssh_hostkey: t("host ssh-ed25519 AAAAC3NzaC1lZDI1NTE5AAAAIPinnedProbeHostKeyForTests"),
        ssh_key_path: t("/keys/id"),
        tmp: t("/tmp/slo"),
        own_ns: t("wt-slo-probe"),
        redis_host: None,
        clickhouse_host: None,
        has_kube: false,
        no_home: None,
        step_ms: 30_000,
        undo_slack_ms: 60_000,
        team_drain_ms: 120_000,
        bench_container: t("bench"),
        ide_log: t("/tmp/ide.log"),
        unenforced: t("network policies are not enforced"),
        decommission_label: t("kloudlite.io/decommission"),
        decommission_status: t("kloudlite.io/decommission-status"),
        drained_prefix: t("drained "),
        removed_at: t("kloudlite.io/removed-at"),
        delete_after: t("kloudlite.io/delete-after"),
        azure: None,
        known_workloads: vec![t("kloudlite-api")],
        sync_secs: 60,
        keys_resync_secs: 300,
    }
}

fn answer(status: u16, text: &str) -> Reply {
    Reply::Answer { status, text: text.to_string() }
}

/// A document, read off an answer.
fn json(text: &str) -> Json {
    doc(&answer(200, text)).expect("a document")
}

/// One wait against a world without a clock: each try takes a second.
fn wait(w: &Wait, world: &mut dyn FnMut(&Ask) -> Reply) -> Reply {
    let mut elapsed: u64 = 0;
    let mut last = String::new();
    loop {
        if let Some(words) = w.before(&last, elapsed) {
            return Reply::Lost(words);
        }
        let mut rs: Vec<Reply> = Vec::new();
        let tried = loop {
            match w.probe(elapsed, &rs) {
                Tried::Ask(a) => rs.push(had(&a, world)),
                other => break other,
            }
        };
        elapsed += 1_000;
        if let Tried::NotYet(why) = &tried {
            last = why.clone();
        }
        match w.after(tried, &last, elapsed) {
            Turn::Done => return rs.pop().unwrap_or(Reply::Said(String::new())),
            Turn::Rest { ms } => elapsed += ms,
            Turn::GiveUp(words) => return Reply::Lost(words),
        }
    }
}

fn had(a: &Ask, world: &mut dyn FnMut(&Ask) -> Reply) -> Reply {
    match a {
        Ask::Wait(w) => wait(w, world),
        other => world(other),
    }
}

/// A body, driven to its end.
fn drive(next: &dyn Fn(&Log) -> Next, world: &mut dyn FnMut(&Ask) -> Reply) -> (Result<(), String>, Log) {
    let mut log = Log { rs: Vec::new(), at: Vec::new(), us: Vec::new(), cut: false };
    loop {
        match next(&log) {
            Next::Ask(a) => {
                let r = had(&a, world);
                log.rs.push(r);
                log.at.push(1_000 * log.rs.len() as u64);
            }
            Next::Undo(a) => {
                let r = had(&a, world);
                log.us.push(r);
            }
            Next::Pass => return (Ok(()), log),
            Next::Fail(why) => return (Err(why), log),
        }
        assert!(log.rs.len() + log.us.len() < 2_000, "a body that does not end");
    }
}

/// A journey, walked to its end.
fn walk<B>(
    journey: &dyn Fn(&Vec<Outcome>) -> Move<B>,
    next: &dyn Fn(&B, &Log) -> Next,
    found: &dyn Fn(&B, &Log) -> Option<String>,
    world: &mut dyn FnMut(&Ask) -> Reply,
) -> Vec<Report> {
    walk_outcomes(journey, next, found, world, &mut Vec::new())
}

/// The same, and how each of its moves went.
fn walk_outcomes<B>(
    journey: &dyn Fn(&Vec<Outcome>) -> Move<B>,
    next: &dyn Fn(&B, &Log) -> Next,
    found: &dyn Fn(&B, &Log) -> Option<String>,
    world: &mut dyn FnMut(&Ask) -> Reply,
    os: &mut Vec<Outcome>,
) -> Vec<Report> {
    let mut reports: Vec<Report> = Vec::new();
    loop {
        match journey(os) {
            Move::Skip { id, why } => {
                reports.push(Report { id: id.to_string(), ok: false, skipped: true, detail: why });
                os.push(Outcome::Skipped);
            }
            Move::Step { id, body, .. } => {
                let (r, log) = drive(&|l: &Log| next(&body, l), world);
                let learned = found(&body, &log);
                reports.push(Report {
                    id: id.to_string(),
                    ok: r.is_ok(),
                    skipped: false,
                    detail: r.clone().err().unwrap_or_default(),
                });
                os.push(match r {
                    Ok(()) => Outcome::Passed { found: learned },
                    Err(why) => Outcome::Failed { why, found: learned },
                });
            }
            Move::Demote { id, why } => {
                let last = reports.iter_mut().rev().find(|r| r.id == id).expect("a report to demote");
                last.skipped = true;
                last.ok = false;
                last.detail = why;
                os.push(Outcome::Skipped);
            }
            Move::Look { body } => {
                let (r, log) = drive(&|l: &Log| next(&body, l), world);
                let learned = found(&body, &log);
                os.push(match r {
                    Ok(()) => Outcome::Passed { found: learned },
                    Err(why) => Outcome::Failed { why, found: learned },
                });
            }
            Move::End => return reports,
        }
        assert!(os.len() < 200, "a journey that does not end");
    }
}

fn nothing<B>(_: &B, _: &Log) -> Option<String> {
    None
}

/// A fleet of which nothing can be reached.
fn dark(a: &Ask) -> Reply {
    match a {
        Ask::Sleep { .. } => Reply::Said(String::new()),
        _ => Reply::Lost("nothing is listening".to_string()),
    }
}

fn ids(reports: &[Report]) -> Vec<&str> {
    reports.iter().map(|r| r.id.as_str()).collect()
}

fn one<'a>(reports: &'a [Report], id: &str) -> &'a Report {
    let hits: Vec<&Report> = reports.iter().filter(|r| r.id == id).collect();
    assert_eq!(hits.len(), 1, "{id} is reported once");
    hits[0]
}

/// A file with a header and no host block is what an exit code alone would call a pass.
#[test]
fn the_ssh_config_check_wants_a_real_host_block() {
    let good = "# Managed by kl-connect.\n\nHost run-fast-1\n  HostName ws-abc\n  User kl\n  \
                ProxyCommand kl-connect ws proxy ws-abc\n  HostKeyAlias ws-abc\n";
    assert!(has_host_block(good, "ws-abc").is_ok());
    // A file the command wrote having skipped every workspace.
    assert!(has_host_block("# Managed by kl-connect.\n", "ws-abc").is_err());
    // Another workspace's block is not this one's.
    assert!(has_host_block(good, "ws-other").is_err());
    // A block with no way to reach the pod is a block ssh cannot use.
    let no_proxy = "Host x\n  HostName ws-abc\n  User kl\n";
    assert!(has_host_block(no_proxy, "ws-abc").is_err());
}

/// The block of a workspace with a longer id names another workspace.
#[test]
fn a_host_block_names_the_whole_id() {
    let block = "Host a\n  HostName ws-abc\n  ProxyCommand kl-connect ws proxy ws-abc\n";
    assert!(has_host_block(block, "ws-abc").is_ok());
    assert_eq!(has_host_block(block, "ws-ab"), Err("the ssh config carries no block for ws-ab".to_string()));
    // What stands behind the id on its line is no part of it.
    let noted = "Host a\n  HostName ws-abc # mine\n  ProxyCommand kl-connect ws proxy ws-abc --quiet\n";
    assert!(has_host_block(noted, "ws-abc").is_ok());
    assert!(has_host_block("HostName ws-abc ProxyCommand kl-connect ws proxy ws-abc", "ws-abc").is_ok());
}

/// A reason is found wherever it stands, whatever it holds.
#[test]
fn a_reason_with_quotes_is_carried() {
    let note = "say \"no\"";
    assert!(denied_with(&json(r#"{"state":"denied","note":"say \"no\""}"#), note).is_ok());
    assert!(denied_with(&json(r#"{"state":"denied","log":[{"note":"we say \"no\" here"}]}"#), note).is_ok());
    // A field's name is no reason.
    assert!(denied_with(&json(r#"{"state":"denied","say \"no\"":1}"#), note).is_err());
}

/// A denied request that carries no reason is a decision the asker cannot act on.
#[test]
fn a_deny_has_to_carry_its_reason() {
    let note = "slo probe denied fast-1";
    assert!(denied_with(&json(r#"{"state":"denied","note":"slo probe denied fast-1"}"#), note).is_ok());
    assert!(denied_with(&json(r#"{"state":"denied","decision":{"note":"slo probe denied fast-1"}}"#), note).is_ok());
    assert!(denied_with(&json(r#"{"state":"denied"}"#), note).is_err());
    assert!(denied_with(&json(r#"{"state":"approved","note":"slo probe denied fast-1"}"#), note).is_err());
    assert!(denied_with(&json(r#"{"state":"pending","note":"slo probe denied fast-1"}"#), note).is_err());
}

#[test]
fn a_segment_never_splits_a_path() {
    assert_eq!(path_seg("SHA256:a/b+c%d"), "SHA256:a%2Fb%2Bc%25d");
}

/// Every id of the surface is produced once with nothing reachable.
#[test]
fn every_id_is_produced_once_with_nothing_reachable() {
    let c = run();
    let s = State::fresh();
    let next = |b: &surface::Body, l: &Log| b.next(&c, l);
    let mut all: Vec<Report> = Vec::new();
    all.extend(walk(&|os: &Vec<Outcome>| surface::quota_namespace(&c, os), &next, &nothing, &mut dark));
    all.extend(walk(&|os: &Vec<Outcome>| surface::services_policies(&c, os), &next, &nothing, &mut dark));
    all.extend(walk(&|os: &Vec<Outcome>| surface::pages(&s, os), &next, &nothing, &mut dark));
    all.extend(walk(&|os: &Vec<Outcome>| surface::metadata(&s, os), &next, &nothing, &mut dark));
    all.extend(walk(&|os: &Vec<Outcome>| surface::session_reads(&c, os), &next, &nothing, &mut dark));
    all.extend(walk(&|os: &Vec<Outcome>| surface::kl_commands(&c, os), &next, &nothing, &mut dark));
    all.extend(walk(&|os: &Vec<Outcome>| surface::reads(os), &next, &nothing, &mut dark));
    assert_eq!(
        ids(&all),
        [
            "ws.quota.namespace",
            "env.services.policies",
            "web.pages",
            "repo.metadata",
            "id.session.reads",
            "kl.commands",
            "admin.reads",
        ]
    );
}

const SMALLER_IDS: [&str; 20] = [
    "id.username",
    "id.profile.upsert",
    "id.cli.tokens",
    "id.cli.sshconfig",
    "key.ssh.lifecycle",
    "repo.description",
    "pr.merge.strategies",
    "pr.mergeability",
    "team.invite.revoke",
    "team.environment",
    "env.attach.pair",
    "vol.list",
    "admin.stop.environment",
    "admin.delete.workload",
    "admin.screens",
    "admin.workloads.read",
    "audit.export",
    "req.decide.kinds",
    "req.legacy.union",
    "region.status",
];

/// Every id of the smaller journeys reports once against a fleet that answers nothing: as a failure
/// with a reason, or as a skip where what it needs is not there.
#[test]
fn every_id_reports_once_with_nothing_reachable() {
    let c = run();
    let s = State::fresh();
    let mut all: Vec<Report> = Vec::new();
    let inext = |b: &identity::Body, l: &Log| b.next(&c, l);
    let ifound = |b: &identity::Body, l: &Log| b.found(l);
    all.extend(walk(&|os: &Vec<Outcome>| identity::username(os), &inext, &ifound, &mut dark));
    all.extend(walk(&|os: &Vec<Outcome>| identity::profile_upsert(os), &inext, &ifound, &mut dark));
    all.extend(walk(&|os: &Vec<Outcome>| identity::cli_tokens(&c, os), &inext, &ifound, &mut dark));
    all.extend(walk(&|os: &Vec<Outcome>| identity::sshconfig(&c, &s, os), &inext, &ifound, &mut dark));
    all.extend(walk(&|os: &Vec<Outcome>| identity::key_lifecycle(&c, &s, os), &inext, &ifound, &mut dark));
    let pnext = |b: &pulls::Body, l: &Log| b.next(&c, l);
    all.extend(walk(&|os: &Vec<Outcome>| pulls::description(&s, os), &pnext, &nothing, &mut dark));
    all.extend(walk(&|os: &Vec<Outcome>| pulls::merge_strategies(&s, os), &pnext, &nothing, &mut dark));
    all.extend(walk(&|os: &Vec<Outcome>| pulls::mergeability(&s, os), &pnext, &nothing, &mut dark));
    let tnext = |b: &teams::Body, l: &Log| b.next(&c, l);
    let tfound = |b: &teams::Body, l: &Log| b.found(l);
    all.extend(walk(&|os: &Vec<Outcome>| teams::invite_revoke(&c, os), &tnext, &tfound, &mut dark));
    all.extend(walk(&|os: &Vec<Outcome>| teams::team_environment(&c, os), &tnext, &tfound, &mut dark));
    all.extend(walk(&|os: &Vec<Outcome>| teams::attach_pair(&c, &s, os), &tnext, &tfound, &mut dark));
    let cnext = |b: &console::Body, l: &Log| b.next(&c, l);
    all.extend(walk(&|os: &Vec<Outcome>| console::vol_list(os), &cnext, &nothing, &mut dark));
    all.extend(walk(&|os: &Vec<Outcome>| console::admin_stop_environment(&s, os), &cnext, &nothing, &mut dark));
    all.extend(walk(&|os: &Vec<Outcome>| console::admin_delete(os), &cnext, &nothing, &mut dark));
    all.extend(walk(&|os: &Vec<Outcome>| console::screens(os), &cnext, &nothing, &mut dark));
    all.extend(walk(&|os: &Vec<Outcome>| console::workloads(os), &cnext, &nothing, &mut dark));
    all.extend(walk(&|os: &Vec<Outcome>| console::audit_export(os), &cnext, &nothing, &mut dark));
    all.extend(walk(&|os: &Vec<Outcome>| console::decide_kinds(&c, os), &cnext, &nothing, &mut dark));
    all.extend(walk(&|os: &Vec<Outcome>| console::legacy_union(os), &cnext, &nothing, &mut dark));
    all.extend(walk(&|os: &Vec<Outcome>| console::region_status(os), &cnext, &nothing, &mut dark));
    for id in SMALLER_IDS {
        one(&all, id);
    }
    assert_eq!(all.len(), SMALLER_IDS.len(), "an id nobody asked for was reported");
    for r in &all {
        // Nothing anywhere carries a credential: these steps mint CLI tokens and read invitations.
        assert!(!r.detail.contains(&c.probe_jwt), "a token reached a detail: {}", r.id);
        assert!(!r.ok, "{} passed with nothing there", r.id);
        assert!(!r.detail.is_empty(), "{} says why", r.id);
    }
}

/// The passkey is taken away whatever became of its mark.
#[test]
fn a_passkey_whose_mark_was_lost_is_taken_away() {
    let c = run();
    let body = surface::Body::SessionReads { name: "run-fast-1-pk".to_string() };
    let mut gone: Vec<String> = Vec::new();
    let (r, _) = drive(&|l: &Log| body.next(&c, l), &mut |a: &Ask| match a {
        Ask::Call { verb, url, .. } => {
            if url.ends_with("/used") {
                return Reply::Lost("nothing is listening".to_string());
            }
            if matches!(verb, Verb::Delete) {
                gone.push(url.clone());
            }
            answer(200, r#"{"id":"pk-1","clone_host":"git.test"}"#)
        }
        other => dark(other),
    });
    assert_eq!(r, Err("nothing is listening".to_string()));
    assert_eq!(gone.len(), 1);
    assert!(gone[0].ends_with("/v1/passkeys/pk-1"), "{gone:?}");
}

/// The pages, each answered by what `land` makes of its path.
fn visited(land: &dyn Fn(&str) -> (u16, String)) -> Vec<Report> {
    let c = run();
    let mut s = State::fresh();
    s.repo = Some("run-fast-1".to_string());
    let base = c.web_url.clone();
    walk(
        &|os: &Vec<Outcome>| surface::pages(&s, os),
        &|b: &surface::Body, l: &Log| b.next(&c, l),
        &nothing,
        &mut |a: &Ask| match a {
            Ask::Page { url } => {
                let asked = url.strip_prefix(base.as_str()).expect("a page of the web app");
                let (status, path) = land(asked);
                Reply::Page { status, path, text: String::new() }
            }
            _ => panic!("only pages are asked for"),
        },
    )
}

#[test]
fn a_page_is_answered_from_the_path_that_was_asked_for() {
    let plain = |asked: &str| asked.split('?').next().unwrap_or_default().to_string();
    let rs = visited(&|asked: &str| (200, plain(asked)));
    assert!(rs[0].ok, "{}", rs[0].detail);
    // A page that answers from elsewhere did not render.
    let rs = visited(&|asked: &str| (200, if asked == "/settings" { "/login".to_string() } else { plain(asked) }));
    assert_eq!(rs[0].detail, "/settings did not render: it landed on /login");
    // The query is no part of the path.
    let rs = visited(&|asked: &str| (200, asked.to_string()));
    assert!(rs[0].detail.contains("/commits?ref=main did not render: it landed on "), "{}", rs[0].detail);
    let rs = visited(&|asked: &str| (if asked == "/new" { 404 } else { 200 }, plain(asked)));
    assert!(rs[0].detail.starts_with("/new did not render: 404 Not Found"), "{}", rs[0].detail);
}

#[test]
fn a_team_environments_volume_is_remembered() {
    let mut s = State::fresh();
    s.extra_volumes = vec!["env-0".to_string()];
    let looked = Outcome::Passed { found: None };
    let failed = Outcome::Failed { why: "slow".to_string(), found: Some("env-1".to_string()) };
    assert_eq!(teams::environment_leaves(&s, &vec![looked, failed]).extra_volumes, ["env-0", "env-1"]);
    assert_eq!(teams::environment_leaves(&s, &vec![Outcome::Skipped]).extra_volumes, ["env-0"]);
}

#[test]
fn the_teams_own_slug_is_asked_for() {
    let c = run();
    match teams::invite_revoke(&c, &Vec::new()) {
        Move::Look { body: teams::Body::Team { slug } } => assert_eq!(slug, slo_stages::stages::teams::team_slug(&c)),
        _ => panic!("the team is looked for first"),
    }
}
