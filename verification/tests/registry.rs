//! The registry: names, scopes, layouts and the stage.

use slo_stages::probes::Tried;
use slo_stages::run::{Run, State};
use slo_stages::stages::registry::{File, base, bearer_of, host, random_layer, sha256, urlencoding, write_layout};
use slo_stages::stages::registry;
use slo_stages::turn::{Move, Outcome};
use slo_stages::wait::{Turn, Wait};
use slo_stages::wire::CraneOp;
use slo_stages::wire::{Ask, Log, Next, Reply};

/// What was reported of a step.
struct Report {
    id: String,
    ok: bool,
    skipped: bool,
    detail: String,
}

fn run() -> Run {
    let t = |s: &str| s.to_string();
    Run {
        run_id: t("fast-1"),
        suite: t("fast"),
        tenant: t("slo-probe"),
        probe_user: t("slo-probe"),
        probe_email: t("slo-probe@example.com"),
        git_email: t("slo-probe@kloudlite.example"),
        other_user: t("slo-other"),
        other_email: t("slo-other@example.com"),
        probe_jwt: t("probe-jwt"),
        other_jwt: t("other-jwt"),
        admin_jwt: t("admin-jwt"),
        api_url: t("http://api.test/"),
        admin_url: t("http://admin.test"),
        git_url: t("http://git.test"),
        web_url: t("http://web.test"),
        registry: t("cr.example.com"),
        canary_digest: None,
        region: t("r1"),
        ssh_host: t("git.test"),
        ssh_port: 22,
        ssh_hostkey: t("host ssh-ed25519 AAAAC3NzaC1lZDI1NTE5AAAAIPinnedProbeHostKeyForTests"),
        ssh_key_path: t("/keys/id"),
        tmp: t("/tmp/slo"),
        own_ns: t("wt-slo-probe"),
        redis_host: None,
        clickhouse_host: None,
        has_kube: false,
        no_home: None,
        step_ms: 30_000,
        undo_slack_ms: 60_000,
        team_drain_ms: 120_000,
        bench_container: t("bench"),
        ide_log: t("/tmp/ide.log"),
        unenforced: t("network policies are not enforced"),
        decommission_label: t("kloudlite.io/decommission"),
        decommission_status: t("kloudlite.io/decommission-status"),
        drained_prefix: t("drained "),
        removed_at: t("kloudlite.io/removed-at"),
        delete_after: t("kloudlite.io/delete-after"),
        azure: None,
        known_workloads: vec![t("kloudlite-api")],
        sync_secs: 60,
        keys_resync_secs: 300,
    }
}

fn answer(status: u16, text: &str) -> Reply {
    Reply::Answer { status, text: text.to_string() }
}

/// One wait against a world without a clock: each try takes a second.
fn wait(w: &Wait, world: &mut dyn FnMut(&Ask) -> Reply) -> Reply {
    let mut elapsed: u64 = 0;
    let mut last = String::new();
    loop {
        if let Some(words) = w.before(&last, elapsed) {
            return Reply::Lost(words);
        }
        let mut rs: Vec<Reply> = Vec::new();
        let tried = loop {
            match w.probe(elapsed, &rs) {
                Tried::Ask(a) => rs.push(had(&a, world)),
                other => break other,
            }
        };
        elapsed += 1_000;
        if let Tried::NotYet(why) = &tried {
            last = why.clone();
        }
        match w.after(tried, &last, elapsed) {
            Turn::Done => return rs.pop().unwrap_or(Reply::Said(String::new())),
            Turn::Rest { ms } => elapsed += ms,
            Turn::GiveUp(words) => return Reply::Lost(words),
        }
    }
}

fn had(a: &Ask, world: &mut dyn FnMut(&Ask) -> Reply) -> Reply {
    match a {
        Ask::Wait(w) => wait(w, world),
        other => world(other),
    }
}

/// A body, driven to its end.
fn drive(next: &dyn Fn(&Log) -> Next, world: &mut dyn FnMut(&Ask) -> Reply) -> (Result<(), String>, Log) {
    let mut log = Log { rs: Vec::new(), at: Vec::new(), us: Vec::new(), cut: false };
    loop {
        match next(&log) {
            Next::Ask(a) => {
                let r = had(&a, world);
                log.rs.push(r);
                log.at.push(1_000 * log.rs.len() as u64);
            }
            Next::Undo(a) => {
                let r = had(&a, world);
                log.us.push(r);
            }
            Next::Pass => return (Ok(()), log),
            Next::Fail(why) => return (Err(why), log),
        }
        assert!(log.rs.len() + log.us.len() < 2_000, "a body that does not end");
    }
}

/// The same, and how each of its moves went.
fn walk_outcomes<B>(
    journey: &dyn Fn(&Vec<Outcome>) -> Move<B>,
    next: &dyn Fn(&B, &Log) -> Next,
    found: &dyn Fn(&B, &Log) -> Option<String>,
    world: &mut dyn FnMut(&Ask) -> Reply,
    os: &mut Vec<Outcome>,
) -> Vec<Report> {
    let mut reports: Vec<Report> = Vec::new();
    loop {
        match journey(os) {
            Move::Skip { id, why } => {
                reports.push(Report { id: id.to_string(), ok: false, skipped: true, detail: why });
                os.push(Outcome::Skipped);
            }
            Move::Step { id, body, .. } => {
                let (r, log) = drive(&|l: &Log| next(&body, l), world);
                let learned = found(&body, &log);
                reports.push(Report {
                    id: id.to_string(),
                    ok: r.is_ok(),
                    skipped: false,
                    detail: r.clone().err().unwrap_or_default(),
                });
                os.push(match r {
                    Ok(()) => Outcome::Passed { found: learned },
                    Err(why) => Outcome::Failed { why, found: learned },
                });
            }
            Move::Demote { id, why } => {
                let last = reports.iter_mut().rev().find(|r| r.id == id).expect("a report to demote");
                last.skipped = true;
                last.ok = false;
                last.detail = why;
                os.push(Outcome::Skipped);
            }
            Move::Look { body } => {
                let (r, log) = drive(&|l: &Log| next(&body, l), world);
                let learned = found(&body, &log);
                os.push(match r {
                    Ok(()) => Outcome::Passed { found: learned },
                    Err(why) => Outcome::Failed { why, found: learned },
                });
            }
            Move::End => return reports,
        }
        assert!(os.len() < 200, "a journey that does not end");
    }
}

fn nothing<B>(_: &B, _: &Log) -> Option<String> {
    None
}

/// A fleet of which nothing can be reached.
fn dark(a: &Ask) -> Reply {
    match a {
        Ask::Sleep { .. } => Reply::Said(String::new()),
        _ => Reply::Lost("nothing is listening".to_string()),
    }
}

fn ids(reports: &[Report]) -> Vec<&str> {
    reports.iter().map(|r| r.id.as_str()).collect()
}

fn failed(reports: &[Report]) -> usize {
    reports.iter().filter(|r| !r.ok && !r.skipped).count()
}

fn one<'a>(reports: &'a [Report], id: &str) -> &'a Report {
    let hits: Vec<&Report> = reports.iter().filter(|r| r.id == id).collect();
    assert_eq!(hits.len(), 1, "{id} is reported once");
    hits[0]
}

#[test]
fn a_scope_survives_the_query_string() {
    assert_eq!(urlencoding("repository:a/b:pull,push"), "repository%3Aa/b%3Apull%2Cpush");
    assert_eq!(urlencoding("registry:catalog:*"), "registry%3Acatalog%3A%2A");
}

#[test]
fn a_bare_registry_host_is_a_url_for_http_and_a_host_for_crane() {
    let mut c = run();
    c.registry = "cr.example.com".to_string();
    assert_eq!(base(&c), "https://cr.example.com");
    assert_eq!(host(&c), "cr.example.com");
    // A scheme is accepted, and never reaches the registry client.
    c.registry = "http://127.0.0.1:8080/".to_string();
    assert_eq!(base(&c), "http://127.0.0.1:8080");
    assert_eq!(host(&c), "127.0.0.1:8080");
}

#[test]
fn a_digest_is_the_bytes_own() {
    let abc: Vec<u8> = b"abc".to_vec();
    assert_eq!(sha256(&abc), "sha256:ba7816bf8f01cfea414140de5dae2223b00361a396177a9cb410ff61f20015ad");
}

#[test]
fn two_layers_are_not_alike() {
    let (a, b) = (random_layer(), random_layer());
    assert_eq!(a.len(), b.len());
    assert_ne!(a, b);
}

#[test]
fn a_bearer_is_read_off_its_answer() {
    assert_eq!(bearer_of(&answer(200, r#"{"token":"t"}"#)), Ok("t".to_string()));
    assert!(bearer_of(&answer(401, "no")).is_err());
    assert!(bearer_of(&answer(200, "{}")).is_err());
}

#[test]
fn shared_layer_check_builds_two_images_from_one_layer() {
    let layer = vec![7u8; 4096];
    let (a, _) = write_layout("/t/a", &layer, "run-x-a");
    let (b, _) = write_layout("/t/b", &layer, "run-x-b");
    let digest = sha256(&layer);
    let blob = format!("blobs/sha256/{}", digest.trim_start_matches("sha256:"));
    // One blob, two images: the layer is there under its digest in both.
    for (dir, files) in [("/t/a", &a), ("/t/b", &b)] {
        let path = format!("{dir}/{blob}");
        let f = files.iter().find(|f| f.path == path).expect("the layer's blob");
        assert_eq!(f.bytes, layer);
    }
    let (layer_a, config_a) = layer_of("/t/a", &a);
    let (layer_b, config_b) = layer_of("/t/b", &b);
    assert_eq!(layer_a, layer_b);
    assert_eq!(layer_a, digest);
    // And they are two images, not one pushed twice.
    assert_ne!(config_a, config_b);
}

/// The digests of the first layer and of the config, by way of the manifest that the index names.
fn layer_of(dir: &str, files: &Vec<File>) -> (String, String) {
    let read = |path: String| -> serde_json::Value {
        let f = files.iter().find(|f| f.path == path).expect("a file of the layout");
        serde_json::from_slice(&f.bytes).expect("a document")
    };
    let text = |v: &serde_json::Value| v.as_str().expect("a digest").to_string();
    let index = read(format!("{dir}/index.json"));
    let named = text(&index["manifests"][0]["digest"]);
    let manifest = read(format!("{dir}/blobs/sha256/{}", named.trim_start_matches("sha256:")));
    (text(&manifest["layers"][0]["digest"]), text(&manifest["config"]["digest"]))
}

#[test]
fn the_images_are_left_once_they_are_pushed() {
    let c = run();
    let known = registry::images(&c, "s", vec![7u8; 16]);
    let passed = || Outcome::Passed { found: None };
    let s = State::fresh();
    let t = registry::leaves(&s, &registry::Part::Push, &known, &vec![passed(), passed(), passed()]);
    assert_eq!((t.image, t.sibling_image), (Some(known.a.clone()), Some(known.b.clone())));
    let lost = Outcome::Failed { why: "no".to_string(), found: None };
    let t = registry::leaves(&s, &registry::Part::Push, &known, &vec![passed(), passed(), lost]);
    assert!(t.image.is_none() && t.sibling_image.is_none());
    let t = registry::leaves(&s, &registry::Part::Tags, &known, &vec![passed()]);
    assert!(t.image.is_none());
}

fn text_of_some(f: &File) -> String {
    String::from_utf8(f.bytes.clone()).unwrap_or_default()
}

fn whole_stage(c: &Run, s: &State, world: &mut dyn FnMut(&Ask) -> Reply) -> Vec<Report> {
    let known = registry::images(c, s.token_value.as_deref().unwrap_or(""), vec![7u8; 16]);
    let mut all: Vec<Report> = Vec::new();
    let mut part = Some(registry::first(s));
    while let Some(p) = part {
        let mut os: Vec<Outcome> = Vec::new();
        let rs = walk_outcomes(
            &|o: &Vec<Outcome>| p.next(c, &known, o),
            &|b: &registry::Body, l: &Log| b.next(c, l),
            &|b: &registry::Body, l: &Log| b.found(l),
            world,
            &mut os,
        );
        all.extend(rs);
        part = p.after(&os);
    }
    all
}

const REG_IDS: [&str; 7] = [
    "reg.token.p95",
    "reg.push.ok",
    "reg.manifest.p95",
    "reg.tags.visible",
    "reg.shared.layer",
    "reg.visibility",
    "reg.canary",
];

#[test]
fn without_a_token_the_whole_stage_is_skipped() {
    let c = run();
    let rs = whole_stage(&c, &State::fresh(), &mut dark);
    assert_eq!(ids(&rs), REG_IDS);
    assert!(rs.iter().all(|r| r.skipped));
    assert_eq!(rs[5].detail, "no registry credential: the token was never minted");
}

#[test]
fn a_push_that_fails_leaves_its_tail_skipped() {
    let c = run();
    let mut s = State::fresh();
    s.token_value = Some("secret".to_string());
    let rs = whole_stage(&c, &s, &mut |a: &Ask| match a {
        Ask::Mkdir { .. } | Ask::WriteBytes { .. } => Reply::Said(String::new()),
        _ => dark(a),
    });
    assert_eq!(ids(&rs), REG_IDS);
    assert_eq!(rs[1].detail, "could not log in: nothing is listening");
    for r in &rs[2..6] {
        assert!(r.skipped && r.detail == "nothing was pushed: the push failed", "{}", r.detail);
    }
}

#[test]
fn a_layout_that_cannot_be_built_is_no_push() {
    let c = run();
    let mut s = State::fresh();
    s.token_value = Some("secret".to_string());
    let rs = whole_stage(&c, &s, &mut dark);
    assert_eq!(ids(&rs), ["reg.token.p95", "reg.manifest.p95", "reg.tags.visible", "reg.shared.layer", "reg.visibility", "reg.canary"]);
    assert_eq!(rs[1].detail, "nothing was pushed: could not build image a: nothing is listening");
}

#[test]
fn a_push_that_works_is_read_back() {
    let c = run();
    let mut s = State::fresh();
    s.token_value = Some("secret".to_string());
    let mut pulls = 0;
    let mut flips: Vec<String> = Vec::new();
    let rs = whole_stage(&c, &s, &mut |a: &Ask| match a {
        Ask::Call { url, auth, .. } => {
            if let Some((_, to)) = url.split_once("?visibility=") {
                flips.push(to.to_string());
            }
            if url.contains("/v2/token") {
                assert_eq!(auth, "Basic c2xvLXByb2JlOnNlY3JldA==");
                answer(200, r#"{"token":"b"}"#)
            } else if url.ends_with("/tags/list") {
                answer(200, r#"{"tags":["latest"]}"#)
            } else if url.ends_with("/_catalog") {
                answer(200, r#"{"repositories":["slo-probe/run-fast-1-a"]}"#)
            } else {
                answer(200, "{}")
            }
        }
        Ask::ReadBytes { .. } => Reply::Bytes(vec![7u8; 16]),
        Ask::Crane { op: CraneOp::Pull { dest, .. }, .. } => {
            pulls += 1;
            // A private image is refused to nobody in particular, and a public one is not.
            if dest.ends_with("pull-anon") && pulls == 2 {
                Reply::Lost("denied".to_string())
            } else {
                Reply::Said(String::new())
            }
        }
        _ => Reply::Said(String::new()),
    });
    assert_eq!(ids(&rs), REG_IDS);
    for r in &rs[..6] {
        assert!(r.ok, "{}: {}", r.id, r.detail);
    }
    assert_eq!(flips, ["public", "private"], "what was published is hidden again");
}

/// A public image that cannot be pulled is private again all the same.
#[test]
fn a_published_image_is_hidden_again() {
    let c = run();
    let body = registry::Body::Visibility { image: "run-fast-1-a".to_string() };
    let mut flips: Vec<String> = Vec::new();
    let (r, log) = drive(&|l: &Log| body.next(&c, l), &mut |a: &Ask| match a {
        Ask::Call { url, .. } => {
            flips.push(url.rsplit('=').next().unwrap_or_default().to_string());
            answer(200, "{}")
        }
        Ask::Crane { .. } => Reply::Lost("denied".to_string()),
        _ => Reply::Said(String::new()),
    });
    assert_eq!(r, Err("a public image refused an anonymous pull: denied".to_string()));
    assert_eq!(flips, ["public", "private"]);
    assert_eq!(log.us.len(), 1);
}
