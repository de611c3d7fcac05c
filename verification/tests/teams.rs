//! Teams.

use base64::Engine;
use slo_stages::json::Json;
use slo_stages::probes::Tried;
use slo_stages::reply::doc;
use slo_stages::run::{Run, State};
use slo_stages::stages::teams::membership::leaked_names;
use slo_stages::stages::teams::paused::{Access, BENCH_SUBDIR, Bench, Desired, PAUSED_BODY_MS, PAUSED_ID, Phase, back_up, canary_js, member_paused, paused_sentence};
use slo_stages::stages::teams::paused;
use slo_stages::stages::teams::repos::with_token;
use slo_stages::stages::teams::untimed::slug;
use slo_stages::stages::teams::{clip, closed_branch, patch_branch, prot_branch, refused, shared_repo, team_slug};
use slo_stages::stages::teams::{membership, repos, untimed};
use slo_stages::turn::{Move, Outcome};
use slo_stages::wait::{Turn, Wait};
use slo_stages::wire::{Ask, Log, Next, Reply};

/// What was reported of a step.
struct Report {
    id: String,
    ok: bool,
    skipped: bool,
    detail: String,
}

fn run() -> Run {
    let t = |s: &str| s.to_string();
    Run {
        run_id: t("fast-1"),
        suite: t("fast"),
        tenant: t("slo-probe"),
        probe_user: t("slo-probe"),
        probe_email: t("slo-probe@example.com"),
        git_email: t("slo-probe@kloudlite.example"),
        other_user: t("slo-other"),
        other_email: t("slo-other@example.com"),
        probe_jwt: t("probe-jwt"),
        other_jwt: t("other-jwt"),
        admin_jwt: t("admin-jwt"),
        api_url: t("http://api.test/"),
        admin_url: t("http://admin.test"),
        git_url: t("http://git.test"),
        web_url: t("http://web.test"),
        registry: t("cr.example.com"),
        canary_digest: None,
        region: t("r1"),
        ssh_host: t("git.test"),
        ssh_port: 22,
        ssh_hostkey: t("host ssh-ed25519 AAAAC3NzaC1lZDI1NTE5AAAAIPinnedProbeHostKeyForTests"),
        ssh_key_path: t("/keys/id"),
        tmp: t("/tmp/slo"),
        own_ns: t("wt-slo-probe"),
        redis_host: None,
        clickhouse_host: None,
        has_kube: false,
        no_home: None,
        step_ms: 30_000,
        undo_slack_ms: 60_000,
        team_drain_ms: 120_000,
        bench_container: t("bench"),
        ide_log: t("/tmp/ide.log"),
        unenforced: t("network policies are not enforced"),
        decommission_label: t("kloudlite.io/decommission"),
        decommission_status: t("kloudlite.io/decommission-status"),
        drained_prefix: t("drained "),
        removed_at: t("kloudlite.io/removed-at"),
        delete_after: t("kloudlite.io/delete-after"),
        azure: None,
        known_workloads: vec![t("kloudlite-api")],
        sync_secs: 60,
        keys_resync_secs: 300,
    }
}

fn answer(status: u16, text: &str) -> Reply {
    Reply::Answer { status, text: text.to_string() }
}

/// A document, read off an answer.
fn json(text: &str) -> Json {
    doc(&answer(200, text)).expect("a document")
}

/// One wait against a world without a clock: each try takes a second.
fn wait(w: &Wait, world: &mut dyn FnMut(&Ask) -> Reply) -> Reply {
    let mut elapsed: u64 = 0;
    let mut last = String::new();
    loop {
        if let Some(words) = w.before(&last, elapsed) {
            return Reply::Lost(words);
        }
        let mut rs: Vec<Reply> = Vec::new();
        let tried = loop {
            match w.probe(elapsed, &rs) {
                Tried::Ask(a) => rs.push(had(&a, world)),
                other => break other,
            }
        };
        elapsed += 1_000;
        if let Tried::NotYet(why) = &tried {
            last = why.clone();
        }
        match w.after(tried, &last, elapsed) {
            Turn::Done => return rs.pop().unwrap_or(Reply::Said(String::new())),
            Turn::Rest { ms } => elapsed += ms,
            Turn::GiveUp(words) => return Reply::Lost(words),
        }
    }
}

fn had(a: &Ask, world: &mut dyn FnMut(&Ask) -> Reply) -> Reply {
    match a {
        Ask::Wait(w) => wait(w, world),
        other => world(other),
    }
}

/// A body, driven to its end.
fn drive(next: &dyn Fn(&Log) -> Next, world: &mut dyn FnMut(&Ask) -> Reply) -> (Result<(), String>, Log) {
    let mut log = Log { rs: Vec::new(), at: Vec::new(), us: Vec::new(), cut: false };
    loop {
        match next(&log) {
            Next::Ask(a) => {
                let r = had(&a, world);
                log.rs.push(r);
                log.at.push(1_000 * log.rs.len() as u64);
            }
            Next::Undo(a) => {
                let r = had(&a, world);
                log.us.push(r);
            }
            Next::Pass => return (Ok(()), log),
            Next::Fail(why) => return (Err(why), log),
        }
        assert!(log.rs.len() + log.us.len() < 2_000, "a body that does not end");
    }
}

/// A journey, walked to its end.
fn walk<B>(
    journey: &dyn Fn(&Vec<Outcome>) -> Move<B>,
    next: &dyn Fn(&B, &Log) -> Next,
    found: &dyn Fn(&B, &Log) -> Option<String>,
    world: &mut dyn FnMut(&Ask) -> Reply,
) -> Vec<Report> {
    walk_outcomes(journey, next, found, world, &mut Vec::new())
}

/// The same, and how each of its moves went.
fn walk_outcomes<B>(
    journey: &dyn Fn(&Vec<Outcome>) -> Move<B>,
    next: &dyn Fn(&B, &Log) -> Next,
    found: &dyn Fn(&B, &Log) -> Option<String>,
    world: &mut dyn FnMut(&Ask) -> Reply,
    os: &mut Vec<Outcome>,
) -> Vec<Report> {
    let mut reports: Vec<Report> = Vec::new();
    loop {
        match journey(os) {
            Move::Skip { id, why } => {
                reports.push(Report { id: id.to_string(), ok: false, skipped: true, detail: why });
                os.push(Outcome::Skipped);
            }
            Move::Step { id, body, .. } => {
                let (r, log) = drive(&|l: &Log| next(&body, l), world);
                let learned = found(&body, &log);
                reports.push(Report {
                    id: id.to_string(),
                    ok: r.is_ok(),
                    skipped: false,
                    detail: r.clone().err().unwrap_or_default(),
                });
                os.push(match r {
                    Ok(()) => Outcome::Passed { found: learned },
                    Err(why) => Outcome::Failed { why, found: learned },
                });
            }
            Move::Demote { id, why } => {
                let last = reports.iter_mut().rev().find(|r| r.id == id).expect("a report to demote");
                last.skipped = true;
                last.ok = false;
                last.detail = why;
                os.push(Outcome::Skipped);
            }
            Move::Look { body } => {
                let (r, log) = drive(&|l: &Log| next(&body, l), world);
                let learned = found(&body, &log);
                os.push(match r {
                    Ok(()) => Outcome::Passed { found: learned },
                    Err(why) => Outcome::Failed { why, found: learned },
                });
            }
            Move::End => return reports,
        }
        assert!(os.len() < 200, "a journey that does not end");
    }
}

fn nothing<B>(_: &B, _: &Log) -> Option<String> {
    None
}

/// A fleet of which nothing can be reached.
fn dark(a: &Ask) -> Reply {
    match a {
        Ask::Sleep { .. } => Reply::Said(String::new()),
        _ => Reply::Lost("nothing is listening".to_string()),
    }
}

/// The url of a call, and the token it carries.
fn url_of(a: &Ask) -> &str {
    match a {
        Ask::Call { url, .. } => url.as_str(),
        _ => "",
    }
}

fn ids(reports: &[Report]) -> Vec<&str> {
    reports.iter().map(|r| r.id.as_str()).collect()
}

fn failed(reports: &[Report]) -> usize {
    reports.iter().filter(|r| !r.ok && !r.skipped).count()
}

fn one<'a>(reports: &'a [Report], id: &str) -> &'a Report {
    let hits: Vec<&Report> = reports.iter().filter(|r| r.id == id).collect();
    assert_eq!(hits.len(), 1, "{id} is reported once");
    hits[0]
}

fn carried_as_basic() {
    let args = with_token("SECRET", &["clone", "url"]);
    let want = base64::engine::general_purpose::STANDARD.encode("x:SECRET");
    assert_eq!(args[0], "-c");
    assert_eq!(args[1], format!("http.extraHeader=Authorization: Basic {want}"));
    assert_eq!(&args[2..], ["clone", "url"]);
}

#[test]
fn experience_teams_a_team_credential_is_carried_as_basic_x_token() {
    carried_as_basic();
}

#[test]
fn mod_a_team_credential_is_carried_as_basic_x_token() {
    carried_as_basic();
}

/// The path is the pod's to compute, from the two facts the bench container is built from.
#[test]
fn the_canary_path_comes_from_the_containers_own_env() {
    let js = canary_js("read(p)");
    assert!(js.contains("process.env.HOME"), "{js}");
    assert!(js.contains(&format!("{:?}", BENCH_SUBDIR)), "{js}");
    assert!(js.ends_with("read(p)"), "{js}");
    assert!(!js.contains("\"/bench\""), "{js}");
}

#[test]
fn ceiling_covers_target_and_group_is_two() {
    assert!(PAUSED_BODY_MS >= 300_000);
    assert_eq!(PAUSED_ID, "team.member.paused");
    assert_eq!(paused_sentence("acme"), "your access to acme is paused");
}

/// The phase from before the pause must not pass for the restart, and neither must a spec the unpause or
/// the start has not reached.
#[test]
fn a_stale_ready_is_not_back_up() {
    let bench = |access, desired, phase, has_pod| Bench { is_bench: true, access, desired, phase: Some(phase), has_pod };
    let up = bench(Access::Full, Desired::Running, Phase::Ready, true);
    assert!(back_up(Some(&up)));
    // An ordinary workspace of the same shape is not this team's bench.
    let mut plain = up;
    plain.is_bench = false;
    assert!(!back_up(Some(&plain)));
    // Ready, but the stop cleared the pod.
    assert!(!back_up(Some(&bench(Access::Full, Desired::Running, Phase::Ready, false))));
    assert!(!back_up(Some(&bench(Access::Paused, Desired::Running, Phase::Ready, true))));
    assert!(!back_up(Some(&bench(Access::Full, Desired::Stopped, Phase::Ready, true))));
    assert!(!back_up(Some(&bench(Access::Full, Desired::Running, Phase::Starting, true))));
    assert!(!back_up(None));
}

#[test]
fn no_kubeconfig_skips_once() {
    let c = run();
    let rs = walk(
        &|os: &Vec<Outcome>| member_paused(&c, "ns", "bench", &None, os),
        &|b: &paused::Body, l: &Log| b.next(&c, l),
        &nothing,
        &mut dark,
    );
    assert!(rs.len() == 1 && one(&rs, PAUSED_ID).skipped);
}

fn prefixed() {
    let mut c = run();
    c.run_id = "hourly-1757000000".to_string();
    for name in [team_slug(&c), slug(&c), shared_repo(&c), prot_branch(&c), patch_branch(&c), closed_branch(&c)] {
        assert!(name.starts_with("run-hourly-1757000000"), "{name}");
    }
    // A team's slug is a handle.
    let slug = team_slug(&c);
    assert!(slug.len() <= 39, "{slug} is too long to be a handle");
    assert!(slug.bytes().all(|b| b.is_ascii_lowercase() || b.is_ascii_digit() || b == b'-'), "{slug}");
    assert!(!slug.starts_with('-') && !slug.ends_with('-'), "{slug}");
}

#[test]
fn experience_teams_every_name_carries_the_run_prefix() {
    prefixed();
}

#[test]
fn mod_every_name_carries_the_run_prefix() {
    prefixed();
}

fn refusals_only() {
    for (code, pass) in [(401u16, true), (403, true), (404, true), (200, false), (409, false), (500, false)] {
        assert_eq!(refused("a read", &answer(code, "")).is_none(), pass, "{code}");
    }
    assert!(refused("a read", &Reply::Lost("no route".to_string())).is_some());
}

#[test]
fn experience_teams_only_401_403_404_count_as_a_refusal() {
    refusals_only();
}

#[test]
fn mod_only_401_403_404_count_as_a_refusal() {
    refusals_only();
}

#[test]
fn a_text_is_clipped_by_characters() {
    let long = "é".repeat(300);
    assert_eq!(clip(&long).chars().count(), 200);
}

fn team_stage(c: &Run, world: &mut dyn FnMut(&Ask) -> Reply) -> Vec<Report> {
    let next = |b: &membership::Body, l: &Log| b.next(c, l);
    let mut all: Vec<Report> = Vec::new();
    all.extend(walk(&|os: &Vec<Outcome>| membership::create(c, os), &next, &nothing, world));
    all.extend(walk(&|os: &Vec<Outcome>| membership::invite_accept(c, os), &next, &nothing, world));
    all.extend(walk(&|os: &Vec<Outcome>| membership::role_set(c, os), &next, &nothing, world));
    all.extend(walk(
        &|os: &Vec<Outcome>| repos::repo_shared(c, os),
        &|b: &repos::Body, l: &Log| b.next(c, l),
        &|b: &repos::Body, l: &Log| b.found(l),
        world,
    ));
    all.extend(walk(&|os: &Vec<Outcome>| membership::workspace(c, "wt-team", os), &next, &nothing, world));
    all.extend(walk(&|os: &Vec<Outcome>| membership::member_remove(c, os), &next, &nothing, world));
    all.extend(walk(&|os: &Vec<Outcome>| membership::delete(c, os), &next, &nothing, world));
    all
}

const TEAM_IDS: [&str; 7] =
    ["team.create", "team.invite.accept", "team.role.set", "team.repo.shared", "team.workspace", "team.member.remove", "team.delete"];

#[test]
fn mod_a_team_that_cannot_be_created_fails_once_and_skips_the_rest() {
    let c = run();
    let rs = team_stage(&c, &mut |a: &Ask| if url_of(a).ends_with("/v1/teams") { answer(502, "") } else { answer(404, "") });
    let made = one(&rs, "team.create");
    assert!(!made.ok && !made.skipped, "the create carries the failure");
    for id in &TEAM_IDS[1..] {
        assert!(one(&rs, id).skipped, "{id} should be skipped, not sampled");
    }
    assert_eq!(failed(&rs), 1, "one broken thing is one failure");
}

#[test]
fn mod_every_team_id_is_reported_exactly_once_when_the_team_exists() {
    let c = run();
    let team = r#"{"slug":"run-fast-1-team","members":[{"email":"slo-other@example.com","role":"admin"}]}"#;
    let rs = team_stage(&c, &mut |a: &Ask| {
        if url_of(a).ends_with("/v1/teams") {
            answer(201, "{}")
        } else if url_of(a).ends_with("/v1/teams/run-fast-1-team") {
            answer(200, team)
        } else {
            answer(404, "")
        }
    });
    assert_eq!(ids(&rs), TEAM_IDS);
    assert!(one(&rs, "team.create").ok);
    // Without a kubeconfig the team's namespace cannot be told from the personal one.
    assert!(one(&rs, "team.workspace").skipped, "no kubeconfig must skip, not create");
}

fn untimed_stage(c: &Run, world: &mut dyn FnMut(&Ask) -> Reply) -> Vec<Report> {
    let next = |b: &untimed::Body, l: &Log| b.next(c, l);
    let mnext = |b: &membership::Body, l: &Log| b.next(c, l);
    let mut all: Vec<Report> = Vec::new();
    all.extend(walk(&|os: &Vec<Outcome>| membership::create(c, os), &mnext, &nothing, world));
    all.extend(walk(&|os: &Vec<Outcome>| membership::invite_accept(c, os), &mnext, &nothing, world));
    all.extend(walk(&|os: &Vec<Outcome>| membership::role_set(c, os), &mnext, &nothing, world));
    all.extend(walk(&|os: &Vec<Outcome>| untimed::repo_shared(c, os), &next, &nothing, world));
    all.extend(walk(&|os: &Vec<Outcome>| untimed::workspace(c, "wt-team", os), &next, &nothing, world));
    all.extend(walk(&|os: &Vec<Outcome>| membership::member_remove(c, os), &mnext, &nothing, world));
    all.extend(walk(&|os: &Vec<Outcome>| untimed::delete(c, os), &next, &nothing, world));
    all
}

#[test]
fn experience_teams_a_team_that_cannot_be_created_fails_once_and_skips_the_rest() {
    let c = run();
    let rs = untimed_stage(&c, &mut |a: &Ask| if url_of(a).ends_with("/v1/teams") { answer(502, "") } else { answer(404, "") });
    let made = one(&rs, "team.create");
    assert!(!made.ok && !made.skipped, "the create carries the failure");
    for id in &TEAM_IDS[1..] {
        assert!(one(&rs, id).skipped, "{id} should be skipped, not sampled");
    }
    assert_eq!(failed(&rs), 1, "one broken thing is one failure");
}

#[test]
fn experience_teams_every_team_id_is_reported_exactly_once_when_the_team_exists() {
    let c = run();
    let team = r#"{"slug":"run-fast-1-team","members":[{"email":"slo-other@example.com","role":"admin"}]}"#;
    let rs = untimed_stage(&c, &mut |a: &Ask| {
        if url_of(a).ends_with("/v1/teams") {
            answer(201, "{}")
        } else if url_of(a).ends_with("/v1/teams/run-fast-1-team") {
            answer(200, team)
        } else {
            answer(404, "")
        }
    });
    assert_eq!(ids(&rs), TEAM_IDS);
    assert!(one(&rs, "team.workspace").skipped, "no kubeconfig must skip, not create");
}

const REPO_IDS: [&str; 6] = ["repo.protection", "repo.commit.patch", "repo.compare", "pr.comment", "pr.close", "commit.verify"];

fn repo_stage(c: &Run, s: &State, world: &mut dyn FnMut(&Ask) -> Reply) -> Vec<Report> {
    let next = |b: &repos::Body, l: &Log| b.next(c, l);
    let found = |b: &repos::Body, l: &Log| b.found(l);
    let mut all: Vec<Report> = Vec::new();
    all.extend(walk(&|os: &Vec<Outcome>| repos::protection(c, s, os), &next, &found, world));
    all.extend(walk(&|os: &Vec<Outcome>| repos::commit_patch(s, os), &next, &found, world));
    all.extend(walk(&|os: &Vec<Outcome>| repos::compare(c, s, os), &next, &found, world));
    all.extend(walk(&|os: &Vec<Outcome>| repos::comment(c, s, os), &next, &found, world));
    all.extend(walk(&|os: &Vec<Outcome>| repos::close(c, s, os), &next, &found, world));
    all.extend(walk(&|os: &Vec<Outcome>| repos::verify(c, s, os), &next, &found, world));
    all
}

fn untimed_repo_stage(c: &Run, s: &State, world: &mut dyn FnMut(&Ask) -> Reply) -> Vec<Report> {
    let next = |b: &repos::Body, l: &Log| b.next(c, l);
    let found = |b: &repos::Body, l: &Log| b.found(l);
    let unext = |b: &untimed::Body, l: &Log| b.next(c, l);
    let mut all: Vec<Report> = Vec::new();
    all.extend(walk(&|os: &Vec<Outcome>| untimed::protection(s, os), &unext, &nothing, world));
    all.extend(walk(&|os: &Vec<Outcome>| repos::commit_patch(s, os), &next, &found, world));
    all.extend(walk(&|os: &Vec<Outcome>| repos::compare(c, s, os), &next, &found, world));
    all.extend(walk(&|os: &Vec<Outcome>| repos::comment(c, s, os), &next, &found, world));
    all.extend(walk(&|os: &Vec<Outcome>| untimed::close(s, os), &unext, &nothing, world));
    all.extend(walk(&|os: &Vec<Outcome>| repos::verify(c, s, os), &next, &found, world));
    all
}

fn skipped_without_a_repo(rs: &[Report]) {
    for id in REPO_IDS {
        let r = one(rs, id);
        assert!(r.skipped && r.detail == "no repo", "{id}");
    }
    assert_eq!(failed(rs), 0);
}

#[test]
fn mod_the_repo_ids_skip_without_a_repo() {
    skipped_without_a_repo(&repo_stage(&run(), &State::fresh(), &mut |_: &Ask| answer(404, "")));
}

#[test]
fn experience_teams_the_repo_ids_skip_without_a_repo() {
    skipped_without_a_repo(&untimed_repo_stage(&run(), &State::fresh(), &mut |_: &Ask| answer(404, "")));
}

fn with_repo() -> State {
    let mut s = State::fresh();
    s.repo = Some("run-fast-1".to_string());
    s
}

#[test]
fn mod_every_repo_id_is_reported_exactly_once_with_a_repo() {
    let rs = repo_stage(&run(), &with_repo(), &mut |_: &Ask| answer(500, ""));
    for id in REPO_IDS {
        one(&rs, id);
    }
}

#[test]
fn experience_teams_every_repo_id_is_reported_exactly_once_with_a_repo() {
    let rs = untimed_repo_stage(&run(), &with_repo(), &mut |_: &Ask| answer(500, ""));
    for id in REPO_IDS {
        one(&rs, id);
    }
}

#[test]
fn a_namespace_is_leaked_once_nothing_uses_it_for_three_beats() {
    let now = 1_700_010_000; // 2023-11-15T01:00:00Z
    let rows = [
        (r#"{"metadata":{"name":"wt-old","creationTimestamp":"2023-11-15T00:44:59Z"}}"#, true),
        // Exactly three beats is not yet too long.
        (r#"{"metadata":{"name":"wt-edge","creationTimestamp":"2023-11-15T00:45:00Z"}}"#, false),
        (r#"{"metadata":{"name":"wt-used","creationTimestamp":"2023-11-14T00:00:00Z"}}"#, false),
        (r#"{"metadata":{"name":"wt-going","creationTimestamp":"2023-11-14T00:00:00Z"},"status":{"phase":"Terminating"}}"#, false),
        (r#"{"metadata":{"name":"env-1","creationTimestamp":"2023-11-14T00:00:00Z"}}"#, false),
        (r#"{"metadata":{"name":"wt-ageless"}}"#, false),
    ];
    let keep = vec!["wt-used".to_string()];
    for (text, leaks) in rows {
        assert_eq!(!leaked_names(&vec![json(text)], &keep, now, 300).is_empty(), leaks, "{text}");
    }
}

#[test]
fn the_bench_is_the_probe_tenants() {
    let mut c = run();
    c.has_kube = true;
    let body = paused::Body::Prepare { team: "run-hourly-1-pause".to_string(), ns: "wt-1".to_string() };
    let mut calls: Vec<(String, String)> = Vec::new();
    let _ = drive(&|l: &Log| body.next(&c, l), &mut |a: &Ask| match a {
        Ask::Call { url, auth, .. } => {
            if url.contains("/v1/bench") {
                calls.push((url.clone(), auth.clone()));
            }
            if url.ends_with("/invites") { answer(200, r#"{"token":"i"}"#) } else { answer(200, "{}") }
        }
        _ => dark(a),
    });
    assert!(calls.iter().any(|(u, _)| u.ends_with("/v1/bench")) && calls.len() >= 2, "{calls:?}");
    assert_ne!(c.probe_jwt, c.other_jwt);
    for (u, auth) in &calls {
        assert_eq!(auth, &format!("Bearer {}", c.probe_jwt), "{u} ran as the wrong tenant");
    }
}

/// The pod is asked for, and what it is called is what is run in.
#[test]
fn the_canary_is_written_in_the_pod_that_was_asked_for() {
    let c = run();
    let body = paused::Body::Prepare { team: "run-hourly-1-pause".to_string(), ns: "wt-1".to_string() };
    let mut pods: Vec<String> = Vec::new();
    let mut asked: Vec<String> = Vec::new();
    drive(&|l: &Log| body.next(&c, l), &mut |a: &Ask| match a {
        Ask::BenchPod { team } => {
            asked.push(team.clone());
            Reply::Said("pod-7".to_string())
        }
        Ask::PodExec { pod, .. } => {
            pods.push(pod.clone());
            Reply::Ran { code: 1, out: String::new(), err: "no".to_string() }
        }
        _ => answer(200, r#"{"token":"t","phase":"ready"}"#),
    });
    assert_eq!(asked, ["run-hourly-1-pause"]);
    assert_eq!(pods, ["pod-7"]);
}

#[test]
fn a_paused_teams_members_go_with_it() {
    let c = run();
    let body = paused::Body::Teardown { team: "t".to_string() };
    for (status, want) in [(200, 1), (409, 0)] {
        let mut dropped: usize = 0;
        drive(&|l: &Log| body.next(&c, l), &mut |a: &Ask| match a {
            Ask::DropMembers { .. } => {
                dropped += 1;
                Reply::Said(String::new())
            }
            _ => answer(status, "{}"),
        });
        assert_eq!(dropped, want);
    }
}
