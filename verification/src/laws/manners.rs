//! Of how the asks of a stage are made: whose they are, and how long each is given.

use vstd::prelude::*;

use crate::run::{RunV, tmp_at};
use crate::stages::gaps::{console, pulls};
use crate::stages::git;
use crate::stages::lifecycle;
use crate::stages::monthly::nodes;
use crate::stages::pr;
use crate::stages::registry;
use crate::stages::trees;
use crate::stages::weekly;
use crate::stages::ws;
use crate::wait::WaitV;
use crate::wire::{AskV, Cluster, LogV, NextV, Program};

verus! {

/// What is asked for, in a body or to compensate for it.
pub open spec fn spoken(n: NextV) -> Option<AskV> {
    match n {
        NextV::Ask(a) => Some(a),
        NextV::Undo(a) => Some(a),
        _ => None,
    }
}

/// A call, and a wait that is made of calls, is made with this token.
pub open spec fn speaks_as(n: NextV, token: Seq<char>) -> bool {
    match spoken(n) {
        Some(AskV::Call { auth, accept, bound_ms, .. }) => auth == "Bearer "@ + token && accept.len() == 0 && bound_ms == 0,
        Some(AskV::Wait(WaitV::Doc { token: t, .. })) => t == token,
        Some(AskV::Wait(WaitV::Gone { token: t, .. })) => t == token,
        Some(AskV::Wait(WaitV::Departed { token: t, .. })) => t == token,
        Some(AskV::Wait(WaitV::Unlisted { token: t, .. })) => t == token,
        Some(AskV::Wait(WaitV::Detached { token: t, .. })) => t == token,
        Some(AskV::Wait(WaitV::Collected { token: t, .. })) => t == token,
        Some(AskV::Wait(WaitV::Agents { token: t, .. })) => t == token,
        Some(AskV::Wait(WaitV::Landed { token: t, .. })) => t == token,
        Some(AskV::Wait(WaitV::Away { token: t, .. })) => t == token,
        Some(AskV::Wait(WaitV::Usage { token: t, .. })) => t == token,
        _ => true,
    }
}

/// What is run in a pod, and what a tool is run for, is given this long.
pub open spec fn runs_within(n: NextV, pod_ms: u64) -> bool {
    match spoken(n) {
        Some(AskV::Exec { bound_ms, .. }) => bound_ms == pod_ms,
        Some(AskV::PodExec { bound_ms, .. }) => bound_ms == pod_ms,
        _ => true,
    }
}

/// A workspace's and an environment's life is the probe's own; a delete, which may be of a clone as well, apart.
pub proof fn law_a_life_is_the_probes_own(c: RunV, b: lifecycle::BodyV, log: LogV)
    requires
        c.probe_jwt.len() > 0,
    ensures
        !(b is WtDelete) ==> speaks_as(lifecycle::body_next(c, b, log), c.probe_jwt),
        b is SnapDelete ==> (spoken(lifecycle::body_next(c, b, log)) matches Some(AskV::Wait(WaitV::Unlisted { cap_ms, .. })) ==> cap_ms == 25_000),
{
}

/// A change is the probe's own, and so is the feed that tells of it.
pub proof fn law_a_change_is_the_probes_own(c: RunV, b: pr::BodyV, log: LogV)
    requires
        c.probe_jwt.len() > 0,
    ensures
        speaks_as(pr::body_next(c, b, log), c.probe_jwt),
{
}

/// What is done in a workspace is the probe's own, the platform's key apart, and each command is given twenty seconds; a look at why a reclone failed, six.
pub proof fn law_a_workspace_is_the_probes_own(c: RunV, b: ws::BodyV, log: LogV)
    requires
        c.probe_jwt.len() > 0,
    ensures
        !(b is PlatformKey) ==> speaks_as(ws::body_next(c, b, log), c.probe_jwt),
        !(b is PlatformKey) ==> runs_within(ws::body_next(c, b, log), 20_000),
        b is PlatformKey ==> runs_within(ws::body_next(c, b, log), 20_000) || runs_within(ws::body_next(c, b, log), 6_000),
{
}

/// The same of its trees.
pub proof fn law_a_tree_is_the_probes_own(c: RunV, b: trees::BodyV, log: LogV)
    requires
        c.probe_jwt.len() > 0,
    ensures
        speaks_as(trees::body_next(c, b, log), c.probe_jwt),
        runs_within(trees::body_next(c, b, log), 20_000),
{
}

/// Of the weekly checks the settings and the lease are an administrator's, and everything else is the probe's own; the pushes apart, which are no calls.
pub proof fn law_the_settings_are_an_administrators(c: RunV, b: weekly::BodyV, log: LogV)
    requires
        c.probe_jwt.len() > 0,
        c.admin_jwt.len() > 0,
        !(b is GcSweep) && !(b is LargeLayer),
    ensures
        ({
            let n = weekly::body_next(c, b, log);
            let admin = b is Failover || b is SettingsLive || b is SettingsRevert || b is SettingsRoll;
            &&& admin ==> speaks_as(n, c.admin_jwt)
            &&& !admin ==> speaks_as(n, c.probe_jwt)
            &&& runs_within(n, 30_000)
            &&& (spoken(n) matches Some(AskV::PodExec { container, argv, .. }) ==> container.len() == 0 && argv == seq!["sh"@, "-c"@, "echo slo"@])
            &&& (spoken(n) matches Some(AskV::Change { cluster, ns, who, .. }) ==> cluster == Cluster::Fleet && ns.len() == 0 && who.len() == 0)
            &&& (spoken(n) matches Some(AskV::Fill { path, .. }) ==> b is LargePush && path == crate::run::joined_path(
                git::work_tree(c, b->LargePush_name), "large.bin"@,
            ))
        }),
{
    reveal_strlit("");
}

/// A git command is given a minute, a host is asked for its key in twenty seconds, and every call on a repo is the probe's own.
pub proof fn law_a_git_command_is_given_a_minute(c: RunV, b: git::BodyV, log: LogV)
    requires
        c.probe_jwt.len() > 0,
    ensures
        b is PushBase || b is PushHead || b is RevParse || b is CloneHttp ==> (spoken(git::body_next(c, b, log)) matches Some(
            AskV::Tool { bound_ms, .. },
        ) ==> bound_ms == 60_000),
        spoken(git::body_next(c, b, log)) matches Some(AskV::Tool { program, bound_ms, .. }) ==> program == Program::SshKeyscan ==> bound_ms == 20_000,
        b is Create ==> speaks_as(git::body_next(c, b, log), c.probe_jwt),
        b is Visible ==> speaks_as(git::body_next(c, b, log), c.probe_jwt),
        b is TreePage ==> speaks_as(git::body_next(c, b, log), c.probe_jwt),
{
}

/// The node drills are made on the fleet, on the node they are of, and as nobody else.
pub proof fn law_a_drill_is_on_the_fleet(c: RunV, b: nodes::BodyV, log: LogV)
    ensures
        ({
            let n = nodes::body_next(c, b, log);
            &&& (spoken(n) matches Some(AskV::Change { cluster, ns, who, dry_run, .. }) ==> cluster == Cluster::Fleet && ns.len() == 0 && who.len() == 0
                && !dry_run)
            &&& (spoken(n) matches Some(AskV::Read { cluster, .. }) ==> cluster == Cluster::Fleet)
            &&& (spoken(n) matches Some(AskV::List { cluster, .. }) ==> cluster == Cluster::Fleet)
        }),
{
    reveal_strlit("");
}

/// The description and the verdict of a change are the probe's own.
pub proof fn law_a_pull_is_the_probes_own(c: RunV, b: pulls::BodyV, log: LogV)
    requires
        c.probe_jwt.len() > 0,
    ensures
        b is Description ==> speaks_as(pulls::body_next(c, b, log), c.probe_jwt),
        b is Mergeability ==> speaks_as(pulls::body_next(c, b, log), c.probe_jwt),
{
}

/// What an administrator's screens show is read as an administrator, and a volume list as its owner.
pub proof fn law_the_screens_are_an_administrators(c: RunV, b: console::BodyV, log: LogV)
    requires
        c.probe_jwt.len() > 0,
        c.admin_jwt.len() > 0,
    ensures
        b is VolList ==> speaks_as(console::body_next(c, b, log), c.probe_jwt),
        b is Screens ==> speaks_as(console::body_next(c, b, log), c.admin_jwt),
        b is Workloads ==> speaks_as(console::body_next(c, b, log), c.admin_jwt),
        b is AuditExport ==> speaks_as(console::body_next(c, b, log), c.admin_jwt),
{
}

/// Both images are pushed, and the shared layer is pulled, with the configuration of the run.
pub proof fn law_a_registry_is_spoken_to_with_the_runs_configuration(c: RunV, b: registry::BodyV, log: LogV)
    ensures
        ({
            let n = registry::body_next(c, b, log);
            &&& b is Push || b is SharedLayer ==> (spoken(n) matches Some(AskV::Crane { config, .. }) ==> config == tmp_at(c, "docker"@))
        }),
{
}

} // verus!
