//! One run of the probe: who it acts as, where the fleet is, and how it names what it makes.

use vstd::prelude::*;

use crate::text::{cat2, cat3, copy_texts, no_slash, texts, trim_slash};

verus! {

/// The accounts the backups are in.
pub struct Azure {
    pub subscription: String,
    pub resource_group: String,
    pub storage_account: String,
    pub cosmos_account: String,
}

pub struct AzureV {
    pub subscription: Seq<char>,
    pub resource_group: Seq<char>,
    pub storage_account: Seq<char>,
    pub cosmos_account: Seq<char>,
}

impl View for Azure {
    type V = AzureV;

    open spec fn view(&self) -> AzureV {
        AzureV {
            subscription: self.subscription@,
            resource_group: self.resource_group@,
            storage_account: self.storage_account@,
            cosmos_account: self.cosmos_account@,
        }
    }
}

pub open spec fn azure_view(a: Option<Azure>) -> Option<AzureV> {
    match a {
        Some(a) => Some(a@),
        None => None,
    }
}

/// What a run is given.
pub struct Run {
    pub run_id: String,
    pub suite: String,
    /// The owner that the repositories and the images of every run stand under.
    pub tenant: String,
    pub probe_user: String,
    pub probe_email: String,
    /// The address commits are made under: the probe tenant's own, which no run changes.
    pub git_email: String,
    pub other_user: String,
    pub other_email: String,
    pub probe_jwt: String,
    pub other_jwt: String,
    pub admin_jwt: String,
    pub api_url: String,
    pub admin_url: String,
    pub git_url: String,
    pub web_url: String,
    pub registry: String,
    pub canary_digest: Option<String>,
    pub region: String,
    pub ssh_host: String,
    pub ssh_port: u16,
    pub ssh_hostkey: String,
    pub ssh_key_path: String,
    /// The run's own working tree.
    pub tmp: String,
    /// The namespace the probe's own workspaces run in.
    pub own_ns: String,
    pub redis_host: Option<String>,
    pub clickhouse_host: Option<String>,
    /// Whether the run was given a kubeconfig.
    pub has_kube: bool,
    /// Why there is no client of the cluster the probe itself runs in, where there is none.
    pub no_home: Option<String>,
    /// What a step is given when nothing about it asks for more.
    pub step_ms: u64,
    /// What a step is given on top of its body, for the body's compensation.
    pub undo_slack_ms: u64,
    /// What a team's workspaces are given to go away.
    pub team_drain_ms: u64,
    /// The container of a bench that runs node.
    pub bench_container: String,
    /// Where a workspace's tool server logs to.
    pub ide_log: String,
    /// What is said where the cluster does not enforce network policies.
    pub unenforced: String,
    /// The label of a node that is being retired.
    pub decommission_label: String,
    /// Where a node keeps how far its retirement has got.
    pub decommission_status: String,
    /// What that begins with once the node is drained.
    pub drained_prefix: String,
    /// The mark of a member that was removed.
    pub removed_at: String,
    /// The mark of when what is theirs may be deleted.
    pub delete_after: String,
    /// The accounts the backups are in.
    pub azure: Option<Azure>,
    /// The workloads the admin console is to list.
    pub known_workloads: Vec<String>,
    /// The sync beat of a region that has none set.
    pub sync_secs: u64,
    /// The beat on which what no workspace resolves to any more is taken away.
    pub keys_resync_secs: u64,
}

pub struct RunV {
    pub run_id: Seq<char>,
    pub suite: Seq<char>,
    pub tenant: Seq<char>,
    pub probe_user: Seq<char>,
    pub probe_email: Seq<char>,
    pub git_email: Seq<char>,
    pub other_user: Seq<char>,
    pub other_email: Seq<char>,
    pub probe_jwt: Seq<char>,
    pub other_jwt: Seq<char>,
    pub admin_jwt: Seq<char>,
    pub api_url: Seq<char>,
    pub admin_url: Seq<char>,
    pub git_url: Seq<char>,
    pub web_url: Seq<char>,
    pub registry: Seq<char>,
    pub canary_digest: Option<Seq<char>>,
    pub region: Seq<char>,
    pub ssh_host: Seq<char>,
    pub ssh_port: u16,
    pub ssh_hostkey: Seq<char>,
    pub ssh_key_path: Seq<char>,
    pub tmp: Seq<char>,
    pub own_ns: Seq<char>,
    pub redis_host: Option<Seq<char>>,
    pub clickhouse_host: Option<Seq<char>>,
    pub has_kube: bool,
    pub no_home: Option<Seq<char>>,
    pub step_ms: u64,
    pub undo_slack_ms: u64,
    pub team_drain_ms: u64,
    pub bench_container: Seq<char>,
    pub ide_log: Seq<char>,
    pub unenforced: Seq<char>,
    pub decommission_label: Seq<char>,
    pub decommission_status: Seq<char>,
    pub drained_prefix: Seq<char>,
    pub removed_at: Seq<char>,
    pub delete_after: Seq<char>,
    pub azure: Option<AzureV>,
    pub known_workloads: Seq<Seq<char>>,
    pub sync_secs: u64,
    pub keys_resync_secs: u64,
}

impl View for Run {
    type V = RunV;

    open spec fn view(&self) -> RunV {
        RunV {
            run_id: self.run_id@,
            suite: self.suite@,
            tenant: self.tenant@,
            probe_user: self.probe_user@,
            probe_email: self.probe_email@,
            git_email: self.git_email@,
            other_user: self.other_user@,
            other_email: self.other_email@,
            probe_jwt: self.probe_jwt@,
            other_jwt: self.other_jwt@,
            admin_jwt: self.admin_jwt@,
            api_url: self.api_url@,
            admin_url: self.admin_url@,
            git_url: self.git_url@,
            web_url: self.web_url@,
            registry: self.registry@,
            canary_digest: crate::wire::opt(self.canary_digest),
            region: self.region@,
            ssh_host: self.ssh_host@,
            ssh_port: self.ssh_port,
            ssh_hostkey: self.ssh_hostkey@,
            ssh_key_path: self.ssh_key_path@,
            tmp: self.tmp@,
            own_ns: self.own_ns@,
            redis_host: crate::wire::opt(self.redis_host),
            clickhouse_host: crate::wire::opt(self.clickhouse_host),
            has_kube: self.has_kube,
            no_home: crate::wire::opt(self.no_home),
            step_ms: self.step_ms,
            undo_slack_ms: self.undo_slack_ms,
            team_drain_ms: self.team_drain_ms,
            bench_container: self.bench_container@,
            ide_log: self.ide_log@,
            unenforced: self.unenforced@,
            decommission_label: self.decommission_label@,
            decommission_status: self.decommission_status@,
            drained_prefix: self.drained_prefix@,
            removed_at: self.removed_at@,
            delete_after: self.delete_after@,
            azure: azure_view(self.azure),
            known_workloads: texts(self.known_workloads@),
            sync_secs: self.sync_secs,
            keys_resync_secs: self.keys_resync_secs,
        }
    }
}

/// What every object a run makes is named after.
pub open spec fn prefix_of(c: RunV) -> Seq<char> {
    "run-"@ + c.run_id
}

pub fn prefix(c: &Run) -> (r: String)
    ensures
        r@ == prefix_of(c@),
{
    cat2("run-", c.run_id.as_str())
}

/// The run's prefix and `tail`.
pub open spec fn named(c: RunV, tail: Seq<char>) -> Seq<char> {
    prefix_of(c) + tail
}

pub fn name(c: &Run, tail: &str) -> (r: String)
    ensures
        r@ == named(c@, tail@),
{
    cat2(prefix(c).as_str(), tail)
}

/// A path of the api process, under its base url; whether the base ends in slashes does not
/// matter.
pub open spec fn api_at(c: RunV, path: Seq<char>) -> Seq<char> {
    no_slash(c.api_url) + path
}

pub fn api(c: &Run, path: &str) -> (r: String)
    ensures
        r@ == api_at(c@, path@),
{
    cat2(trim_slash(c.api_url.as_str()).as_str(), path)
}

/// The same, of the admin process.
pub open spec fn admin_at(c: RunV, path: Seq<char>) -> Seq<char> {
    no_slash(c.admin_url) + path
}

pub fn admin(c: &Run, path: &str) -> (r: String)
    ensures
        r@ == admin_at(c@, path@),
{
    cat2(trim_slash(c.admin_url.as_str()).as_str(), path)
}

/// `part` below `dir`.
pub open spec fn joined_path(dir: Seq<char>, part: Seq<char>) -> Seq<char> {
    if dir.len() == 0 || dir.last() == '/' { dir + part } else { dir + "/"@ + part }
}

pub fn below(dir: &str, part: &str) -> (r: String)
    ensures
        r@ == joined_path(dir@, part@),
{
    let n = dir.unicode_len();
    if n == 0 || dir.get_char(n - 1) == '/' {
        cat2(dir, part)
    } else {
        cat3(dir, "/", part)
    }
}

/// `part` below the run's working tree.
pub open spec fn tmp_at(c: RunV, part: Seq<char>) -> Seq<char> {
    joined_path(c.tmp, part)
}

pub fn tmp(c: &Run, part: &str) -> (r: String)
    ensures
        r@ == tmp_at(c@, part@),
{
    below(c.tmp.as_str(), part)
}

/// Every name made from the run's prefix starts with it, which is what the sweep finds it by.
pub proof fn law_names_carry_the_prefix(c: RunV, tail: Seq<char>)
    ensures
        crate::text::starts(named(c, tail), prefix_of(c)),
{
    let n = named(c, tail);
    let p = prefix_of(c);
    assert(n.subrange(0, p.len() as int) =~= p);
}

/// What a run has learned so far: the ids of what it made.
pub struct State {
    pub repo: Option<String>,
    pub token: Option<String>,
    pub token_value: Option<String>,
    pub key: Option<String>,
    pub image: Option<String>,
    pub sibling_image: Option<String>,
    pub workspace: Option<String>,
    pub clone: Option<String>,
    pub volume: Option<String>,
    pub snapshot: Option<String>,
    pub environment: Option<String>,
    pub env_volume: Option<String>,
    pub env_snapshot: Option<String>,
    pub env_multi: Option<String>,
    pub ux_workspace: Option<String>,
    /// The id of the login that was collected for the CLI.
    pub cli_token: Option<String>,
    /// The volumes whose names do not carry the run's prefix: they go by name.
    pub extra_volumes: Vec<String>,
}

pub struct StateV {
    pub repo: Option<Seq<char>>,
    pub token: Option<Seq<char>>,
    pub token_value: Option<Seq<char>>,
    pub key: Option<Seq<char>>,
    pub image: Option<Seq<char>>,
    pub sibling_image: Option<Seq<char>>,
    pub workspace: Option<Seq<char>>,
    pub clone: Option<Seq<char>>,
    pub volume: Option<Seq<char>>,
    pub snapshot: Option<Seq<char>>,
    pub environment: Option<Seq<char>>,
    pub env_volume: Option<Seq<char>>,
    pub env_snapshot: Option<Seq<char>>,
    pub env_multi: Option<Seq<char>>,
    pub ux_workspace: Option<Seq<char>>,
    pub cli_token: Option<Seq<char>>,
    pub extra_volumes: Seq<Seq<char>>,
}

impl View for State {
    type V = StateV;

    open spec fn view(&self) -> StateV {
        StateV {
            repo: crate::wire::opt(self.repo),
            token: crate::wire::opt(self.token),
            token_value: crate::wire::opt(self.token_value),
            key: crate::wire::opt(self.key),
            image: crate::wire::opt(self.image),
            sibling_image: crate::wire::opt(self.sibling_image),
            workspace: crate::wire::opt(self.workspace),
            clone: crate::wire::opt(self.clone),
            volume: crate::wire::opt(self.volume),
            snapshot: crate::wire::opt(self.snapshot),
            environment: crate::wire::opt(self.environment),
            env_volume: crate::wire::opt(self.env_volume),
            env_snapshot: crate::wire::opt(self.env_snapshot),
            env_multi: crate::wire::opt(self.env_multi),
            ux_workspace: crate::wire::opt(self.ux_workspace),
            cli_token: crate::wire::opt(self.cli_token),
            extra_volumes: texts(self.extra_volumes@),
        }
    }
}

impl State {
    /// What a run knows when it begins.
    pub fn fresh() -> (s: State)
        ensures
            s@ == (StateV {
                repo: None,
                token: None,
                token_value: None,
                key: None,
                image: None,
                sibling_image: None,
                workspace: None,
                clone: None,
                volume: None,
                snapshot: None,
                environment: None,
                env_volume: None,
                env_snapshot: None,
                env_multi: None,
                ux_workspace: None,
                cli_token: None,
                extra_volumes: seq![],
            }),
    {
        let extra_volumes: Vec<String> = Vec::new();
        proof {
            assert(texts(extra_volumes@) =~= Seq::<Seq<char>>::empty());
        }
        State {
            repo: None,
            token: None,
            token_value: None,
            key: None,
            image: None,
            sibling_image: None,
            workspace: None,
            clone: None,
            volume: None,
            snapshot: None,
            environment: None,
            env_volume: None,
            env_snapshot: None,
            env_multi: None,
            ux_workspace: None,
            cli_token: None,
            extra_volumes,
        }
    }
}

fn copied(t: &Option<String>) -> (r: Option<String>)
    ensures
        crate::wire::opt(r) == crate::wire::opt(*t),
{
    t.clone()
}

/// A state that remembers one more volume, where there is one.
pub open spec fn with_volume(s: StateV, volume: Option<Seq<char>>) -> StateV {
    match volume {
        Some(v) => StateV { extra_volumes: s.extra_volumes.push(v), ..s },
        None => s,
    }
}

impl State {
    pub fn copy(&self) -> (r: State)
        ensures
            r@ == self@,
    {
        State {
            repo: copied(&self.repo),
            token: copied(&self.token),
            token_value: copied(&self.token_value),
            key: copied(&self.key),
            image: copied(&self.image),
            sibling_image: copied(&self.sibling_image),
            workspace: copied(&self.workspace),
            clone: copied(&self.clone),
            volume: copied(&self.volume),
            snapshot: copied(&self.snapshot),
            environment: copied(&self.environment),
            env_volume: copied(&self.env_volume),
            env_snapshot: copied(&self.env_snapshot),
            env_multi: copied(&self.env_multi),
            ux_workspace: copied(&self.ux_workspace),
            cli_token: copied(&self.cli_token),
            extra_volumes: copy_texts(&self.extra_volumes),
        }
    }

    pub fn remembering(&self, volume: Option<String>) -> (r: State)
        ensures
            r@ == with_volume(self@, crate::wire::opt(volume)),
    {
        let mut r = self.copy();
        if let Some(v) = volume {
            let ghost before = r.extra_volumes@;
            r.extra_volumes.push(v);
            proof {
                assert(texts(r.extra_volumes@) =~= texts(before).push(v@));
            }
        }
        r
    }
}

/// What is remembered stays so, and one more volume is the only change.
pub proof fn law_what_is_remembered_stays(s: StateV, volume: Option<Seq<char>>)
    ensures
        volume matches Some(v) ==> with_volume(s, volume).extra_volumes.contains(v),
        forall|v: Seq<char>| s.extra_volumes.contains(v) ==> #[trigger] with_volume(s, volume).extra_volumes.contains(v),
        (StateV { extra_volumes: s.extra_volumes, ..with_volume(s, volume) }) == s,
{
    let after = with_volume(s, volume).extra_volumes;
    if let Some(v) = volume {
        assert(after[s.extra_volumes.len() as int] == v);
    }
    assert forall|v: Seq<char>| s.extra_volumes.contains(v) implies #[trigger] after.contains(v) by {
        let i = s.extra_volumes.index_of(v);
        assert(after[i] == v);
    }
}

} // verus!
