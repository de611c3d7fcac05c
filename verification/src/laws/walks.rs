//! Of when a step is walked, and how long it is given.

use vstd::prelude::*;

use crate::run::{RunV, StateV};
use crate::stages::gaps::{console, identity as account, pulls, surface, teams as own_teams};
use crate::stages::git;
use crate::stages::identity;
use crate::stages::lifecycle;
use crate::stages::monthly::backups;
use crate::stages::monthly::nodes;
use crate::stages::monthly::outages;
use crate::stages::monthly::removed;
use crate::stages::pr;
use crate::stages::quota_usage;
use crate::stages::registry;
use crate::stages::security;
use crate::stages::security::Part;
use crate::stages::teams::membership;
use crate::stages::teams::paused;
use crate::stages::teams::repos;
use crate::stages::teams::untimed;
use crate::stages::trees;
use crate::stages::weekly;
use crate::stages::ws;
use crate::text::trimmed;
use crate::turn::{MoveV, OutcomeV, failure, found_in, more, passed, passed_with};

verus! {

/// A step is walked, and is given this long.
pub open spec fn walks<B>(m: MoveV<B>, ms: u64) -> bool {
    m matches MoveV::Step { ceiling_ms, .. } && ceiling_ms == ms
}

/// A journey of one step: where it may be walked it is, and is given this long; where not, it is skipped; and it is over then.
pub open spec fn one_step<B>(m: MoveV<B>, may: bool, ms: u64, os: Seq<OutcomeV>) -> bool {
    &&& os.len() == 0 && may ==> walks(m, ms)
    &&& os.len() == 0 && !may ==> m is Skip
    &&& os.len() > 0 ==> m is End
}

/// Two spans together are their sum, or as much as there is room for.
pub proof fn law_two_spans_are_their_sum(a: u64, b: u64)
    ensures
        a + b <= u64::MAX ==> more(a, b) == a + b,
        a + b > u64::MAX ==> more(a, b) == u64::MAX,
{
}

/// The git stage walks each of its parts where the run has what it needs.
pub proof fn law_the_git_parts_are_walked(c: RunV, k: git::KnownV, os: Seq<OutcomeV>)
    ensures
        one_step(git::hostkey_move(c, os), trimmed(c.ssh_hostkey).len() > 0, 30_000, os),
        ({
            let m = git::ssh_clone_move(k, os);
            &&& k.key is None && os.len() == 0 ==> m is Skip
            &&& k.key is Some && os.len() == 0 ==> m == (MoveV::Look { body: git::BodyV::KnownHosts })
            &&& k.key is Some && os.len() == 1 && failure(os[0]) is None ==> walks(m, 60_000)
            &&& k.key is Some && os.len() == 1 && failure(os[0]) is Some ==> m is Skip
        }),
        ({
            let m = git::unregistered_move(k, os);
            &&& os.len() == 0 ==> m == (MoveV::Look { body: git::BodyV::KnownHosts })
            &&& os.len() == 1 && failure(os[0]) is None ==> m == (MoveV::Look { body: git::BodyV::Throwaway })
            &&& os.len() == 2 && failure(os[0]) is None && failure(os[1]) is None ==> walks(m, 60_000)
            &&& os.len() == 2 && failure(os[0]) is None && failure(os[1]) is Some ==> m is Skip
        }),
        ({
            let m = git::browse_move(c, k, os);
            &&& k.head is Some && os.len() == 0 ==> walks(m, 30_000) && m->Step_body is Visible
            &&& k.head is Some && os.len() == 1 ==> walks(m, c.step_ms) && m->Step_body is TreePage
            &&& k.head is None && os.len() < 2 ==> m is Skip
        }),
        one_step(git::part_move(c, k, git::PartV::Tiers, os), true, c.step_ms, os),
        one_step(git::part_move(c, k, git::PartV::PushHead, os), true, 60_000, os),
        one_step(git::part_move(c, k, git::PartV::CloneOk, os), true, 60_000, os),
        one_step(git::part_move(c, k, git::PartV::CloneP95, os), true, 60_000, os),
        one_step(git::part_move(c, k, git::PartV::WebPage, os), true, c.step_ms, os),
        os.len() == 0 ==> git::part_move(c, k, git::PartV::RevParse, os) == (MoveV::Look { body: git::BodyV::RevParse { name: k.name } }),
        git::part_move(c, k, git::PartV::HostKey, os) == git::hostkey_move(c, os),
        git::part_move(c, k, git::PartV::SshClone, os) == git::ssh_clone_move(k, os),
        git::part_move(c, k, git::PartV::Unregistered, os) == git::unregistered_move(k, os),
        git::part_move(c, k, git::PartV::Browse, os) == git::browse_move(c, k, os),
        os.len() == 1 && failure(os[0]) is None ==> walks(git::opening_move(c, os), 60_000),
        os.len() == 0 ==> git::opening_move(c, os) is Look,
{
}

/// The identity stage walks its four steps in order.
pub proof fn law_the_identity_steps_are_walked_in_order(c: RunV, os: Seq<OutcomeV>)
    ensures
        ({
            let m = identity::run_move(c, os);
            &&& os.len() == 0 ==> m == (MoveV::Look { body: identity::BodyV::PlatformKey })
            &&& os.len() == 1 ==> walks(m, c.step_ms) && m->Step_body is SignIn
            &&& os.len() == 2 ==> walks(m, c.step_ms) && m->Step_body is Mint
            &&& os.len() == 3 ==> walks(m, 60_000) && m->Step_body is Key
            &&& os.len() == 4 ==> walks(m, 45_000) && m->Step_body is CliFlow
            &&& os.len() > 4 ==> m is End
        }),
{
}

/// A workspace's life is walked in order: stopped, copied, started, restored; the rest where a push was made.
pub proof fn law_a_workspaces_life_is_walked_in_order(c: RunV, s: StateV, os: Seq<OutcomeV>)
    requires
        s.workspace is Some && s.volume is Some,
    ensures
        ({
            let m = lifecycle::workspace_move(c, s, os);
            let n = os.len() as int;
            let b: int = if c.has_kube { 6 } else { 5 };
            &&& n == 0 ==> walks(m, 15_000) && m->Step_body is Stop
            &&& n == 1 ==> walks(m, 60_000) && m->Step_body is Replicated
            &&& n == 2 ==> walks(m, 30_000) && m->Step_body is Start
            &&& s.snapshot is Some && n == 3 ==> walks(m, 60_000) && m->Step_body is Restore
            &&& s.snapshot is Some && n == 4 && c.has_kube ==> m is Look && m->Look_body is SyncPoint
            &&& s.snapshot is Some && n == 4 && !c.has_kube ==> m is Skip
            &&& s.snapshot is Some && n == 5 && c.has_kube && passed_with(os[4]) is Some ==> walks(m, 20_000) && m->Step_body is Refusals
            &&& s.snapshot is Some && n == b ==> m == (MoveV::Look { body: lifecycle::BodyV::DetachAll })
            &&& s.snapshot is Some && n == b + 1 && passed(os[b]) ==> walks(m, 60_000) && m->Step_body is Detached
            &&& s.snapshot is Some && n == b + 1 && !passed(os[b]) ==> m is Skip
            &&& s.snapshot is Some && n == b + 2 && c.has_kube ==> walks(m, 60_000) && m->Step_body is Orphan
            &&& s.snapshot is None && 3 <= n < 7 ==> m is Skip
        }),
{
}

/// An environment's life is walked in order once it stopped, and what is deleted of it goes in order.
pub proof fn law_an_environments_life_is_walked_in_order(c: RunV, s: StateV, os: Seq<OutcomeV>)
    ensures
        ({
            let m = lifecycle::environment_move(c, s, os);
            let n = os.len();
            &&& s.environment is Some && n == 0 ==> walks(m, 30_000) && m->Step_body is EnvStop
            &&& s.environment is Some && n == 1 && passed(os[0]) ==> walks(m, 30_000) && m->Step_body is EnvReplicated
            &&& s.environment is Some && n == 2 && passed(os[0]) ==> walks(m, 60_000) && m->Step_body is EnvStart
            &&& s.environment is Some && n == 3 && passed(os[0]) && s.env_snapshot is Some ==> walks(m, 90_000) && m->Step_body is EnvRestore
            &&& s.environment is Some && 1 <= n < 4 && !passed(os[0]) ==> m is Skip
            &&& s.environment is None && n < 4 ==> m is Skip
        }),
        ({
            let m = lifecycle::deletes_move(s, os);
            let n = os.len();
            let all = s.environment is Some && s.env_volume is Some && s.env_snapshot is Some;
            &&& all && n == 0 ==> walks(m, 75_000) && m->Step_body is WtDelete
            &&& all && n == 1 && passed(os[0]) ==> walks(m, 25_000) && m->Step_body is SnapDelete
            &&& all && n == 1 && !passed(os[0]) ==> m is Skip
            &&& !all && n < 2 ==> m is Skip
        }),
{
}

/// The registry's parts are walked where the run has a credential.
pub proof fn law_the_registry_parts_are_walked(c: RunV, k: registry::KnownV, os: Seq<OutcomeV>)
    ensures
        ({
            let m = registry::run_move(c, k, os);
            &&& os.len() == 0 ==> walks(m, c.step_ms) && m->Step_body is Token
            &&& os.len() == 1 ==> m is Look
            &&& os.len() == 2 && passed(os[1]) ==> walks(m, 180_000) && m->Step_body is Push
        }),
        os.len() == 1 && passed_with(os[0]) is Some ==> walks(registry::manifest_move(c, k, os), c.step_ms) && walks(registry::tags_move(c, k, os), 15_000),
        os.len() == 0 ==> registry::manifest_move(c, k, os) == (MoveV::Look {
            body: registry::BodyV::Bearer { secret: k.secret, scope: "repository:"@ + c.tenant + "/"@ + k.a + ":pull,push"@ },
        }),
        os.len() == 0 ==> registry::tags_move(c, k, os) == (MoveV::Look {
            body: registry::BodyV::Bearer {
                secret: k.secret, scope: "repository:"@ + c.tenant + "/"@ + k.a + ":pull,push"@ + " registry:catalog:*"@,
            },
        }),
        one_step(registry::shared_layer_move(k, os), true, 120_000, os),
        one_step(registry::visibility_move(k, os), true, 120_000, os),
        one_step(registry::canary_move(c, os), c.canary_digest is Some, c.step_ms, os),
        registry::next_part(registry::PartV::Manifest, os) == Some(registry::PartV::Tags),
        registry::next_part(registry::PartV::Tags, os) == Some(registry::PartV::SharedLayer),
        registry::next_part(registry::PartV::SharedLayer, os) == Some(registry::PartV::Visibility),
        registry::next_part(registry::PartV::Visibility, os) == Some(registry::PartV::Canary),
{
}

/// Each refusal is tried where the run has what it is tried on.
pub proof fn law_the_refusals_are_tried(c: RunV, s: StateV, os: Seq<OutcomeV>)
    ensures
        one_step(security::part_move(Part::PrivateRepo, c, s, os), s.repo is Some, 10_000, os),
        one_step(security::part_move(Part::CrossOwner, c, s, os), s.environment is Some || s.workspace is Some, 10_000, os),
        one_step(security::part_move(Part::AdminClaim, c, s, os), true, 10_000, os),
        one_step(security::part_move(Part::UserProcess, c, s, os), true, 10_000, os),
        one_step(
            security::part_move(Part::TokenRevoked, c, s, os), s.token is Some && s.token_value is Some && s.repo is Some, 10_000, os,
        ),
        ({
            let m = security::part_move(Part::AgentSpec, c, s, os);
            &&& c.has_kube && os.len() == 0 ==> m == (MoveV::Look { body: security::BodyV::MayImpersonate })
            &&& c.has_kube && os.len() == 1 && passed(os[0]) ==> m == (MoveV::Look { body: security::BodyV::AWorkspace { ours: s.workspace } })
            &&& c.has_kube && os.len() == 2 && passed(os[0]) && passed_with(os[1]) is Some ==> walks(m, 10_000)
            &&& !c.has_kube && os.len() == 0 ==> m is Skip
            &&& c.has_kube && os.len() == 1 && !passed(os[0]) ==> m is Skip
        }),
{
}

/// A merge is timed where the run has a repo and the change was opened; use is measured in the hourly suite.
pub proof fn law_a_merge_and_a_stamp_are_walked(c: RunV, s: StateV, w: Seq<char>, os: Seq<OutcomeV>)
    ensures
        ({
            let m = pr::run_move(s, os);
            &&& s.repo is Some && os.len() == 0 ==> m is Look && m->Look_body is HeadOid
            &&& s.repo is Some && os.len() == 1 && passed_with(os[0]) is Some ==> m is Look && m->Look_body is Open
            &&& s.repo is Some && os.len() == 2 && passed_with(os[0]) is Some && passed_with(os[1]) is Some ==> walks(m, 90_000) && m->Step_body is Merge
            &&& s.repo is Some && os.len() == 3 && passed_with(os[0]) is Some && passed_with(os[1]) is Some && passed(os[2]) ==> walks(m, 40_000)
                && m->Step_body is Feed
        }),
        ({
            let m = quota_usage::stamped_move(c, w, os);
            &&& c.suite == "hourly"@ && c.has_kube && os.len() == 0 ==> m == (MoveV::Look { body: quota_usage::BodyV::Beat })
            &&& c.suite == "hourly"@ && c.has_kube && os.len() == 1 ==> walks(m, 150_000) && (m->Step_body matches quota_usage::BodyV::Stamp { ws, .. } && ws == w)
        }),
{
}

/// What a person does in a workspace is walked where there is a cluster to look into.
pub proof fn law_what_is_done_in_a_workspace_is_walked(c: RunV, s: StateV, os: Seq<OutcomeV>)
    ensures
        ({
            let m = ws::packages_move(c, os);
            &&& c.has_kube && os.len() == 0 ==> walks(m, 290_000) && m->Step_body is PackagesAdd
            &&& c.has_kube && os.len() == 1 && passed(os[0]) && found_in(os[0]) is Some ==> walks(m, 90_000) && m->Step_body is PackagesRemove
        }),
        one_step(ws::seeded_move(c, s, os), c.has_kube && s.repo is Some, 290_000, os),
        one_step(ws::seed_failed_move(c, os), c.has_kube, 240_000, os),
        one_step(ws::platform_key_move(c, s, os), c.has_kube && s.repo is Some, 290_000, os),
        one_step(ws::home_travels_move(c, s, os), c.has_kube && s.ux_workspace is Some, 290_000, os),
        one_step(ws::cache_in_tree_move(c, os), c.has_kube, 290_000, os),
        ({
            let m = ws::ide_server_move(c, os);
            let up = c.has_kube && os.len() > 0 && passed_with(os[0]) is Some;
            &&& c.has_kube && os.len() == 0 ==> walks(m, 240_000) && m->Step_body is IdeUp
            &&& up && os.len() == 1 ==> walks(m, 20_000) && m->Step_body is IdeExec
            &&& up && os.len() == 2 ==> walks(m, 20_000) && m->Step_body is Sandbox
            &&& up && os.len() == 3 ==> walks(m, 20_000) && m->Step_body is Https
            &&& up && os.len() == 4 ==> m is Look && m->Look_body is DropWs
        }),
        ({
            let m = ws::pin_move(c, os);
            let made = c.has_kube && os.len() > 0 && found_in(os[0]) is Some;
            &&& c.has_kube && os.len() == 0 ==> walks(m, 290_000) && m->Step_body is Pin
            &&& made && os.len() == 1 ==> walks(m, 60_000) && m->Step_body is PinUnknown
            &&& made && os.len() == 2 ==> walks(m, 60_000) && m->Step_body is PinUncached
            &&& made && passed(os[0]) && os.len() == 3 ==> walks(m, 60_000) && m->Step_body is Update
            &&& made && passed(os[0]) && os.len() == 4 ==> walks(m, 60_000) && m->Step_body is LockShape
            &&& made && os.len() == 5 ==> m is Look && m->Look_body is Park
        }),
        ({
            let m = trees::trees_move(c, os);
            let cut = c.has_kube && os.len() > 0 && passed_with(os[0]) is Some;
            &&& c.has_kube && os.len() == 0 ==> walks(m, 60_000) && m->Step_body is Cut
            &&& cut && os.len() == 1 ==> walks(m, 30_000) && m->Step_body is Isolated
            &&& cut && os.len() == 2 ==> walks(m, 30_000) && m->Step_body is Ports
            &&& cut && os.len() == 3 ==> walks(m, 290_000) && m->Step_body is NoTravel
            &&& cut && os.len() == 4 ==> walks(m, 120_000) && m->Step_body is Closed
        }),
{
}

/// The weekly parts are walked where the run has what each needs, and a stretch that is compensated has a time of its own.
pub proof fn law_the_weekly_parts_are_walked(c: RunV, s: StateV, cold: Option<Seq<char>>, layer: Seq<u8>, os: Seq<OutcomeV>, t: Seq<char>)
    ensures
        ({
            let m = weekly::large_push_move(s, os);
            &&& s.repo is Some && os.len() == 0 ==> m is Look && m->Look_body is WorkTree
            &&& s.repo is Some && os.len() == 1 && passed(os[0]) ==> m == (MoveV::Look { body: weekly::BodyV::KnownHosts })
            &&& s.repo is Some && os.len() == 2 && passed(os[0]) ==> walks(m, 600_000)
        }),
        one_step(weekly::large_layer_move(c, s, layer, os), s.token_value is Some, 600_000, os),
        ({
            let m = weekly::profiles_move(c, os);
            &&& os.len() == 0 ==> walks(m, 600_000) && m->Step_body is Cold
            &&& os.len() == 1 && passed(os[0]) ==> walks(m, 120_000) && m->Step_body is Warm
        }),
        ({
            let m = weekly::cross_node_move(c, cold, os);
            let may = weekly::unmovable(c, cold) is None && cold is Some;
            &&& may && os.len() == 0 ==> m is Look && m->Look_body is Placement
            &&& may && os.len() == 1 && found_in(os[0]) is Some ==> walks(m, 360_000) && m->Step_body is Cross
            &&& may && os.len() == 2 && found_in(os[0]) is Some && passed(os[1]) ==> walks(m, 30_000) && m->Step_body is HomeRead
            &&& c.has_kube && cold is Some ==> weekly::unmovable(c, cold) is None
        }),
        ({
            let m = weekly::env_cross_node_move(c, s, os);
            let may = c.has_kube && s.environment is Some;
            &&& may && os.len() == 0 ==> m is Look && m->Look_body is Placement
            &&& may && os.len() == 1 && found_in(os[0]) is Some ==> walks(m, 360_000)
        }),
        one_step(weekly::failover_move(c, os), c.no_home is None, 60_000, os),
        one_step(weekly::settings_live_move(os), true, 120_000, os),
        one_step(weekly::settings_revert_move(os), true, 120_000, os),
        os.len() == 0 ==> walks(weekly::settings_roll_move(os), 300_000),
        one_step(weekly::gc_sweep_move(c, s, layer, os), s.token_value is Some, 360_000, os),
        weekly::body_region(weekly::BodyV::Cross { ws: t, node: t }) == Some((3usize, 300_000u64)),
        weekly::body_region(weekly::BodyV::EnvCross { env: t, node: t }) == Some((3usize, 300_000u64)),
        weekly::body_region(weekly::BodyV::SettingsLive) == Some((2usize, 60_000u64)),
        weekly::body_region(weekly::BodyV::SettingsRevert) == Some((2usize, 30_000u64)),
        weekly::body_region(weekly::BodyV::SettingsRoll) == Some((3usize, 240_000u64)),
{
}

/// The drills are walked where there is a cluster, or an account, to drill on.
pub proof fn law_the_drills_are_walked(c: RunV, now_ms: i64, os: Seq<OutcomeV>, t: Seq<char>)
    ensures
        one_step(backups::tarball_age_move(c, now_ms, os), c.azure is Some, 60_000, os),
        one_step(backups::daily_slots_move(c, now_ms, os), c.azure is Some, 60_000, os),
        one_step(backups::versioning_move(c, os), c.azure is Some, 60_000, os),
        one_step(backups::cosmos_move(c, os), c.azure is Some, 60_000, os),
        ({
            let m = nodes::drain_move(c, os);
            let own = c.has_kube && os.len() > 0 && found_in(os[0]) is Some;
            &&& c.has_kube && os.len() == 0 ==> m == (MoveV::Look { body: nodes::BodyV::OwnWorkspace })
            &&& own && os.len() == 1 ==> m is Look && m->Look_body is NodeOf
            &&& own && os.len() == 2 && found_in(os[1]) is Some ==> m is Look && m->Look_body is Uid
            &&& own && os.len() == 3 && found_in(os[1]) is Some ==> walks(m, 660_000)
        }),
        ({
            let m = nodes::decommission_move(c, os);
            &&& c.has_kube && os.len() == 0 ==> m == (MoveV::Look { body: nodes::BodyV::OwnWorkspace })
            &&& c.has_kube && os.len() == 1 && found_in(os[0]) is None ==> m == (MoveV::Look { body: nodes::BodyV::Idle { avoid: None } })
            &&& c.has_kube && os.len() == 2 && found_in(os[0]) is Some ==> m == (MoveV::Look { body: nodes::BodyV::Idle { avoid: found_in(os[1]) } })
            &&& c.has_kube && os.len() == 2 && found_in(os[0]) is None && passed_with(os[1]) is Some ==> walks(m, 660_000)
            &&& c.has_kube && os.len() == 3 && found_in(os[0]) is Some && passed_with(os[2]) is Some ==> walks(m, 660_000)
        }),
        ({
            let m = outages::redis_down_move(c, os);
            let may = c.redis_host is Some && c.no_home is None;
            &&& may && os.len() == 0 ==> m == (MoveV::Look { body: outages::BodyV::Enforced })
            &&& may && os.len() == 1 && found_in(os[0]) == Some("true"@) ==> m is Look && m->Look_body is Resolve
            &&& may && os.len() == 2 && found_in(os[0]) == Some("true"@) && passed_with(os[1]) is Some ==> walks(m, 660_000)
        }),
        ({
            let m = outages::clickhouse_down_move(c, os);
            let may = c.clickhouse_host is Some && c.no_home is None;
            &&& may && os.len() == 0 ==> m == (MoveV::Look { body: outages::BodyV::Enforced })
            &&& may && os.len() == 1 && found_in(os[0]) == Some("true"@) ==> m is Look && m->Look_body is Resolve
            &&& may && os.len() == 2 && found_in(os[0]) == Some("true"@) && passed_with(os[1]) is Some ==> walks(m, 240_000)
        }),
        outages::body_region(outages::BodyV::RedisDown { ips: t, name: t }) == Some((1usize, 600_000u64)),
        outages::body_region(outages::BodyV::ClickhouseDown { ips: t, name: t }) == Some((1usize, 180_000u64)),
        nodes::body_region(nodes::BodyV::Drain { ws: t, node: t, before: None }) == Some((1usize, 600_000u64)),
        nodes::body_region(nodes::BodyV::Decommission { node: t }) == Some((0usize, 600_000u64)),
{
}

/// A removal is walked once it was prepared, or fails for that.
pub proof fn law_a_removal_is_walked(
    c: RunV, bench: Seq<char>, now_secs: i64, now_nanos: u32, prep: Option<removed::PrepV>, os: Seq<OutcomeV>, pause: Option<paused::PrepV>, ns: Seq<char>,
)
    ensures
        ({
            let m = removed::member_removed_move(c, bench, now_secs, now_nanos, prep, os);
            let team = "run-"@ + c.run_id + "-rmv"@;
            &&& c.has_kube && os.len() == 0 ==> m == (MoveV::Look { body: removed::BodyV::Prepare { team } })
            &&& c.has_kube && prep is Some && os.len() == 1 ==> m == (MoveV::Look { body: removed::BodyV::Remove { team, bench } })
            &&& c.has_kube && prep is Some && os.len() == 2 ==> walks(m, 780_000)
            &&& c.has_kube && prep is Some && os.len() == 2 && passed_with(os[1]) == Some("on"@) ==> m->Step_body is Collected
            &&& c.has_kube && prep is None && os.len() == 1 ==> walks(m, 780_000) && m->Step_body is Doomed
            &&& c.has_kube && prep is Some && os.len() == 3 ==> m is Look && m->Look_body is TeardownPrep
            &&& c.has_kube && prep is Some && os.len() == 4 ==> m is Look && m->Look_body is TeardownTeam
        }),
        ({
            let m = paused::member_paused_move(c, ns, bench, pause, os);
            let team = "run-"@ + c.run_id + "-pause"@;
            &&& c.has_kube && os.len() == 0 ==> m == (MoveV::Look { body: paused::BodyV::Prepare { team, ns } })
            &&& c.has_kube && os.len() == 1 ==> walks(m, more(360_000, c.undo_slack_ms))
            &&& c.has_kube && os.len() == 1 && pause is Some ==> m->Step_body is Paused
        }),
        paused::body_region(paused::BodyV::Paused { team: ns, ns, bench, tool: ns, gateway: ns }) == Some((0usize, 360_000u64)),
{
}

/// The team's journeys are walked where the team, and the member, are there.
pub proof fn law_the_team_steps_are_walked(c: RunV, s: StateV, ns: Seq<char>, now: i64, os: Seq<OutcomeV>, t: Seq<char>)
    ensures
        one_step(membership::create_move(c, os), true, 20_000, os),
        one_step(membership::namespace_reaped_move(c, now, os), c.has_kube, 20_000, os),
        ({
            let there = os.len() == 1 && passed(os[0]);
            &&& there ==> walks(membership::invite_accept_move(c, os), 20_000)
            &&& there ==> walks(membership::role_set_move(c, os), 20_000)
            &&& there && c.has_kube ==> walks(membership::workspace_move(c, ns, os), 120_000)
            &&& there ==> walks(membership::member_remove_move(c, os), 20_000)
            &&& there && c.has_kube ==> walks(untimed::workspace_move(c, ns, os), 120_000)
            &&& there ==> membership::delete_move(c, os) is Look && untimed::delete_move(c, os) is Look
            &&& there ==> repos::repo_shared_move(c, os) is Look && untimed::repo_shared_move(c, os) is Look
            &&& there && s.repo is Some ==> walks(repos::protection_move(c, s, os), more(150_000, c.undo_slack_ms))
            &&& there && s.repo is Some ==> walks(untimed::protection_move(s, os), 150_000)
            &&& there && s.repo is Some ==> walks(repos::close_move(c, s, os), 30_000) && walks(untimed::close_move(s, os), 30_000)
            &&& there ==> walks(own_teams::invite_revoke_move(c, os), 20_000)
            &&& there && c.has_kube ==> walks(own_teams::team_environment_move(c, os), 240_000)
        }),
        ({
            let both = os.len() == 2 && passed(os[0]) && passed(os[1]);
            &&& both ==> walks(membership::delete_move(c, os), more(c.team_drain_ms, 30_000))
            &&& both ==> walks(untimed::delete_move(c, os), 30_000)
            &&& both ==> walks(repos::repo_shared_move(c, os), more(90_000, c.undo_slack_ms))
            &&& both ==> walks(untimed::repo_shared_move(c, os), 90_000)
        }),
        ({
            let found = s.repo is Some && os.len() == 1 && found_in(os[0]) is Some;
            &&& found ==> walks(repos::compare_move(c, s, os), 20_000)
            &&& found ==> walks(repos::comment_move(c, s, os), 30_000)
            &&& found ==> walks(repos::verify_move(c, s, os), 20_000)
            &&& s.repo is Some && os.len() == 0 ==> repos::verify_move(c, s, os) == (MoveV::Look {
                body: repos::BodyV::BranchOid { name: s.repo->0, branch: "main"@ },
            })
            &&& s.repo is Some && os.len() == 0 ==> repos::compare_move(c, s, os) == (MoveV::Look {
                body: repos::BodyV::BranchOid { name: s.repo->0, branch: "run-"@ + c.run_id + "-patch"@ },
            })
        }),
        one_step(repos::commit_patch_move(s, os), s.repo is Some, 30_000, os),
        one_step(own_teams::attach_pair_move(c, s, os), c.has_kube && s.env_multi is Some, 120_000, os),
        repos::body_region(repos::BodyV::RepoShared { slug: t, name: t }) == Some((1usize, 90_000u64)),
        repos::body_region(repos::BodyV::Protection { name: t }) == Some((2usize, 150_000u64)),
{
}

/// The console's, the account's and the surface's steps are each walked where the run has what they need.
pub proof fn law_the_surface_steps_are_walked(c: RunV, s: StateV, os: Seq<OutcomeV>, t: Seq<char>)
    ensures
        one_step(console::vol_list_move(os), true, 15_000, os),
        one_step(console::admin_stop_environment_move(s, os), s.env_multi is Some, 180_000, os),
        one_step(console::admin_delete_move(os), true, 180_000, os),
        one_step(console::screens_move(os), true, 15_000, os),
        one_step(console::workloads_move(os), true, 15_000, os),
        one_step(console::audit_export_move(os), true, 15_000, os),
        one_step(console::decide_kinds_move(c, os), true, 90_000, os),
        one_step(console::legacy_union_move(os), true, 15_000, os),
        one_step(console::region_status_move(os), true, 15_000, os),
        one_step(account::username_move(os), true, 20_000, os),
        one_step(account::profile_upsert_move(os), true, 15_000, os),
        one_step(account::cli_tokens_move(c, os), true, 20_000, os),
        one_step(account::sshconfig_move(c, s, os), s.ux_workspace is Some || s.workspace is Some, 45_000, os),
        ({
            let m = account::key_lifecycle_move(c, s, os);
            &&& s.repo is Some && os.len() == 0 ==> m == (MoveV::Look { body: account::BodyV::KnownHosts })
            &&& s.repo is Some && os.len() == 1 && passed(os[0]) ==> m == (MoveV::Look { body: account::BodyV::Throwaway })
            &&& s.repo is Some && os.len() == 2 && passed(os[0]) && passed(os[1]) ==> m == (MoveV::Look { body: account::BodyV::PublicKey })
            &&& s.repo is Some && os.len() == 3 && passed(os[0]) && passed(os[1]) && passed_with(os[2]) is Some ==> walks(
                m, more(60_000, c.undo_slack_ms),
            )
        }),
        one_step(pulls::description_move(s, os), s.repo is Some, 15_000, os),
        one_step(pulls::merge_strategies_move(s, os), s.repo is Some, 300_000, os),
        one_step(pulls::mergeability_move(s, os), s.repo is Some, 60_000, os),
        one_step(surface::quota_namespace_move(c, os), c.has_kube, 30_000, os),
        one_step(surface::services_policies_move(c, os), c.has_kube, 30_000, os),
        one_step(surface::pages_move(s, os), true, 60_000, os),
        one_step(surface::metadata_move(s, os), s.repo is Some, 20_000, os),
        one_step(surface::session_reads_move(c, os), true, 20_000, os),
        one_step(surface::kl_commands_move(c, os), true, 30_000, os),
        os.len() == 0 ==> walks(surface::reads_move(os), 20_000),
        console::body_region(console::BodyV::DecideKinds { slug: t }) == Some((1usize, 70_000u64)),
        account::body_region(account::BodyV::SshConfig { ws: t, device: t }) == Some((4usize, 35_000u64)),
        account::body_region(account::BodyV::KeyLifecycle { repo: t, public: t }) == Some((1usize, 60_000u64)),
        surface::body_region(surface::BodyV::KlCommands { device: t }) == Some((4usize, 20_000u64)),
{
}

} // verus!
