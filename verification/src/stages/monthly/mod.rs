//! What is only done now and then: reading the backups, and the drills that break something on purpose
//! and put it back.

pub mod backups;
pub mod nodes;
pub mod older;
pub mod outages;
pub mod removed;

use vstd::prelude::*;

use crate::run::{Run, RunV};
use crate::stages::monthly::backups::{
    cosmos, cosmos_move, daily_slots, daily_slots_move, tarball_age, tarball_age_move, versioning, versioning_move,
};
use crate::stages::monthly::nodes::{dead_node, dead_node_move, decommission, decommission_move, drain, drain_move};
use crate::stages::monthly::outages::{clickhouse_down, clickhouse_down_move, interrupted, interrupted_move, redis_down, redis_down_move};
use crate::turn::{Move, MoveV, Outcome, OutcomeV, outcomes, reports, reports_exactly};
use crate::wire::{Log, LogV, Next, NextV, opt};

verus! {

/// Where the backups are, and what an encrypted slot ends in.
pub const BACKUP_CONTAINER: &'static str = "k3s-backup";

pub const SLOT_SUFFIX: &'static str = ".tgz.enc";

/// A backup is made every hour: one this old has missed one. In minutes, since whole hours would let it
/// drift for most of another.
pub const MAX_TARBALL_AGE_MINS: i64 = 120;

pub const READ_MS: u64 = 60_000;

/// What the agent's own beat is given to drain a node.
pub const DRAIN_MS: u64 = 600_000;

/// Long enough that a fleet that leans on Redis would show it.
pub const REDIS_DOWN_MS: u64 = 300_000;

/// The outage, and the work that is done in it.
pub const REDIS_BODY_MS: u64 = 600_000;

pub const CLICKHOUSE_BODY_MS: u64 = 180_000;

pub const MERGE_MS: u64 = 120_000;

/// Two beats of what a feed falls back on, and their drift.
pub const FEED_FALLBACK_MS: u64 = 150_000;

/// Where the tiers run, and the policies the drills write there.
pub const POLICY_NS: &'static str = "kloudlite";

pub const NETPOL: &'static str = "slo-drill-redis";

pub const CH_NETPOL: &'static str = "slo-drill-clickhouse";

/// Why what needs a node that is really dead is left to an operator.
pub const NODE_LEVEL_DRILL: &'static str = "a dead node needs the operator's node-level drill: stop the kubelet on one pool node — recipe in deploy/k3s/README.md";

/// A step's ceiling for a body with a compensation: the body's own and a minute, so that the body's is
/// the one that is reached first.
pub fn step_cap(body_ms: u64) -> (r: u64)
    requires
        body_ms + 60_000 <= u64::MAX,
    ensures
        r == body_ms + 60_000,
{
    body_ms + 60_000
}

/// A body of any of the parts.
pub enum Body {
    Backups(backups::Body),
    Nodes(nodes::Body),
    Outages(outages::Body),
}

pub enum BodyV {
    Backups(backups::BodyV),
    Nodes(nodes::BodyV),
    Outages(outages::BodyV),
}

impl View for Body {
    type V = BodyV;

    open spec fn view(&self) -> BodyV {
        match self {
            Body::Backups(b) => BodyV::Backups(b@),
            Body::Nodes(b) => BodyV::Nodes(b@),
            Body::Outages(b) => BodyV::Outages(b@),
        }
    }
}

pub open spec fn body_next(c: RunV, b: BodyV, log: LogV) -> NextV {
    match b {
        BodyV::Backups(b) => backups::body_next(c, b, log),
        BodyV::Nodes(b) => nodes::body_next(c, b, log),
        BodyV::Outages(b) => outages::body_next(c, b, log),
    }
}

pub open spec fn body_region(b: BodyV) -> Option<(usize, u64)> {
    match b {
        BodyV::Backups(_) => None,
        BodyV::Nodes(b) => nodes::body_region(b),
        BodyV::Outages(b) => outages::body_region(b),
    }
}

pub open spec fn body_found(c: RunV, b: BodyV, log: LogV) -> Option<Seq<char>> {
    match b {
        BodyV::Backups(_) => None,
        BodyV::Nodes(b) => nodes::body_found(c, b, log),
        BodyV::Outages(b) => outages::body_found(b, log),
    }
}

impl Body {
    pub fn next(&self, c: &Run, log: &Log) -> (n: Next)
        ensures
            n@ == body_next(c@, self@, log@),
    {
        match self {
            Body::Backups(b) => b.next(c, log),
            Body::Nodes(b) => b.next(c, log),
            Body::Outages(b) => b.next(c, log),
        }
    }

    pub fn region(&self) -> (r: Option<(usize, u64)>)
        ensures
            r == body_region(self@),
    {
        match self {
            Body::Backups(_) => None,
            Body::Nodes(b) => b.region(),
            Body::Outages(b) => b.region(),
        }
    }

    pub fn found(&self, c: &Run, log: &Log) -> (r: Option<String>)
        ensures
            opt(r) == body_found(c@, self@, log@),
    {
        match self {
            Body::Backups(_) => None,
            Body::Nodes(b) => b.found(c, log),
            Body::Outages(b) => b.found(log),
        }
    }
}

pub open spec fn backups_move(m: MoveV<backups::BodyV>) -> MoveV<BodyV> {
    match m {
        MoveV::Skip { id, why } => MoveV::Skip { id, why },
        MoveV::Step { id, ceiling_ms, body } => MoveV::Step { id, ceiling_ms, body: BodyV::Backups(body) },
        MoveV::Demote { id, why } => MoveV::Demote { id, why },
        MoveV::Look { body } => MoveV::Look { body: BodyV::Backups(body) },
        MoveV::End => MoveV::End,
    }
}

fn of_backups(m: Move<backups::Body>) -> (r: Move<Body>)
    ensures
        r@ == backups_move(m@),
{
    match m {
        Move::Skip { id, why } => Move::Skip { id, why },
        Move::Step { id, ceiling_ms, body } => Move::Step { id, ceiling_ms, body: Body::Backups(body) },
        Move::Demote { id, why } => Move::Demote { id, why },
        Move::Look { body } => Move::Look { body: Body::Backups(body) },
        Move::End => Move::End,
    }
}

pub open spec fn nodes_move(m: MoveV<nodes::BodyV>) -> MoveV<BodyV> {
    match m {
        MoveV::Skip { id, why } => MoveV::Skip { id, why },
        MoveV::Step { id, ceiling_ms, body } => MoveV::Step { id, ceiling_ms, body: BodyV::Nodes(body) },
        MoveV::Demote { id, why } => MoveV::Demote { id, why },
        MoveV::Look { body } => MoveV::Look { body: BodyV::Nodes(body) },
        MoveV::End => MoveV::End,
    }
}

fn of_nodes(m: Move<nodes::Body>) -> (r: Move<Body>)
    ensures
        r@ == nodes_move(m@),
{
    match m {
        Move::Skip { id, why } => Move::Skip { id, why },
        Move::Step { id, ceiling_ms, body } => Move::Step { id, ceiling_ms, body: Body::Nodes(body) },
        Move::Demote { id, why } => Move::Demote { id, why },
        Move::Look { body } => Move::Look { body: Body::Nodes(body) },
        Move::End => Move::End,
    }
}

pub open spec fn outages_move(m: MoveV<outages::BodyV>) -> MoveV<BodyV> {
    match m {
        MoveV::Skip { id, why } => MoveV::Skip { id, why },
        MoveV::Step { id, ceiling_ms, body } => MoveV::Step { id, ceiling_ms, body: BodyV::Outages(body) },
        MoveV::Demote { id, why } => MoveV::Demote { id, why },
        MoveV::Look { body } => MoveV::Look { body: BodyV::Outages(body) },
        MoveV::End => MoveV::End,
    }
}

fn of_outages(m: Move<outages::Body>) -> (r: Move<Body>)
    ensures
        r@ == outages_move(m@),
{
    match m {
        Move::Skip { id, why } => Move::Skip { id, why },
        Move::Step { id, ceiling_ms, body } => Move::Step { id, ceiling_ms, body: Body::Outages(body) },
        Move::Demote { id, why } => Move::Demote { id, why },
        Move::Look { body } => Move::Look { body: Body::Outages(body) },
        Move::End => Move::End,
    }
}

/// The parts of the stage.
#[derive(Clone, Copy, PartialEq, Eq, Structural)]
pub enum Part {
    TarballAge,
    DailySlots,
    Versioning,
    Cosmos,
    DeadNode,
    Interrupted,
    Drain,
    Decommission,
    RedisDown,
    ClickhouseDown,
}

pub open spec fn part_move(part: Part, c: RunV, now_ms: i64, os: Seq<OutcomeV>) -> MoveV<BodyV> {
    match part {
        Part::TarballAge => backups_move(tarball_age_move(c, now_ms, os)),
        Part::DailySlots => backups_move(daily_slots_move(c, now_ms, os)),
        Part::Versioning => backups_move(versioning_move(c, os)),
        Part::Cosmos => backups_move(cosmos_move(c, os)),
        Part::DeadNode => nodes_move(dead_node_move(os)),
        Part::Interrupted => outages_move(interrupted_move(os)),
        Part::Drain => nodes_move(drain_move(c, os)),
        Part::Decommission => nodes_move(decommission_move(c, os)),
        Part::RedisDown => outages_move(redis_down_move(c, os)),
        Part::ClickhouseDown => outages_move(clickhouse_down_move(c, os)),
    }
}

/// The stage, part by part; `now_ms` is the time the backups are held against.
pub fn run(part: Part, c: &Run, now_ms: i64, os: &Vec<Outcome>) -> (m: Move<Body>)
    ensures
        m@ == part_move(part, c@, now_ms, outcomes(os@)),
{
    match part {
        Part::TarballAge => of_backups(tarball_age(c, now_ms, os)),
        Part::DailySlots => of_backups(daily_slots(c, now_ms, os)),
        Part::Versioning => of_backups(versioning(c, os)),
        Part::Cosmos => of_backups(cosmos(c, os)),
        Part::DeadNode => of_nodes(dead_node(os)),
        Part::Interrupted => of_outages(interrupted(os)),
        Part::Drain => of_nodes(drain(c, os)),
        Part::Decommission => of_nodes(decommission(c, os)),
        Part::RedisDown => of_outages(redis_down(c, os)),
        Part::ClickhouseDown => of_outages(clickhouse_down(c, os)),
    }
}

/// The order of the parts.
pub open spec fn next_part(part: Part) -> Option<Part> {
    match part {
        Part::TarballAge => Some(Part::DailySlots),
        Part::DailySlots => Some(Part::Versioning),
        Part::Versioning => Some(Part::Cosmos),
        Part::Cosmos => Some(Part::DeadNode),
        Part::DeadNode => Some(Part::Interrupted),
        Part::Interrupted => Some(Part::Drain),
        Part::Drain => Some(Part::Decommission),
        Part::Decommission => Some(Part::RedisDown),
        Part::RedisDown => Some(Part::ClickhouseDown),
        Part::ClickhouseDown => None,
    }
}

pub fn after(part: Part) -> (r: Option<Part>)
    ensures
        r == next_part(part),
{
    match part {
        Part::TarballAge => Some(Part::DailySlots),
        Part::DailySlots => Some(Part::Versioning),
        Part::Versioning => Some(Part::Cosmos),
        Part::Cosmos => Some(Part::DeadNode),
        Part::DeadNode => Some(Part::Interrupted),
        Part::Interrupted => Some(Part::Drain),
        Part::Drain => Some(Part::Decommission),
        Part::Decommission => Some(Part::RedisDown),
        Part::RedisDown => Some(Part::ClickhouseDown),
        Part::ClickhouseDown => None,
    }
}

/// The ids a part owes.
pub open spec fn ids_of(part: Part) -> Seq<Seq<char>> {
    match part {
        Part::TarballAge => seq!["bak.tarball.age"@],
        Part::DailySlots => seq!["bak.daily.slots"@],
        Part::Versioning => seq!["bak.versioning"@],
        Part::Cosmos => seq!["bak.cosmos"@],
        Part::DeadNode => seq!["drill.dead.node"@],
        Part::Interrupted => seq!["ws.interrupted"@, "env.clone.interrupted"@],
        Part::Drain => seq!["drill.drain"@],
        Part::Decommission => seq!["cluster.decommission"@],
        Part::RedisDown => seq!["drill.redis.down"@],
        Part::ClickhouseDown => seq!["drill.clickhouse.down"@],
    }
}

/// Whatever is configured and whatever comes back, each part reports its ids exactly once.
pub proof fn law_every_id_is_reported_once(part: Part, c: RunV, now_ms: i64, os: Seq<OutcomeV>)
    ensures
        reports_exactly(|o: Seq<OutcomeV>| part_move(part, c, now_ms, o), os, ids_of(part), 4),
    decreases os.len(),
{
    reveal_with_fuel(reports, 5);
    if os.len() > 4 {
        law_every_id_is_reported_once(part, c, now_ms, os.drop_last());
    }
}

/// A run that is given no accounts, no cluster and no hosts skips every part from its first move: it
/// does not breach.
pub proof fn law_an_unconfigured_run_only_skips(part: Part, c: RunV, now_ms: i64)
    requires
        c.azure is None,
        !c.has_kube,
        c.redis_host is None,
        c.clickhouse_host is None,
    ensures
        part_move(part, c, now_ms, seq![]) is Skip,
{
}

} // verus!
