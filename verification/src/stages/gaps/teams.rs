//! Teams: an invitation that is revoked, an environment a team owns, and the policy of an attached pair.

use vstd::prelude::*;

use crate::json::{Doc, arr0, arr1, int_doc, obj1, obj2, obj4, obj5, text_of, txt};
use crate::reply::{
    call_error, call_failed, codes4, doc, doc_of, error, failed, id_in, id_of, lost, lost_in, lost_of, lost_within, made,
    made_of, unanswered, unanswered_by, undo_failed,
};
use crate::run::{Run, RunV, State, StateV, api, api_at, name, named, with_volume};
use crate::stages::gaps::{ATTACH_PAIR_MS, QUICK_MS, QUOTA_GB, SVC_ANSWERS_MS, TEAM_ENV_MS, env_namespace, env_ns, redis, redis_service};
use crate::stages::identity::{filled, filled_at};
use crate::stages::teams::{team_slug, team_slug_of};
use crate::text::{cat2, cat3};
use crate::turn::{
    Move, MoveV, Outcome, OutcomeV, learned, learned_by, look, one, one_move, outcomes, passed, reports, reports_exactly, skip,
    step,
};
use crate::wait::{Wait, WaitV};
use crate::want::{Want, WantV};
use crate::wire::{
    Ask, AskV, Log, LogV, Next, NextV, Reply, ReplyV, close_after, closing, deleting, end, erase, err_of, get, getting, inside,
    link, opt, post, post_nothing, posting, posting_nothing, within,
};

verus! {

/// The token and the id of an invitation.
pub open spec fn invited(r: ReplyV) -> Result<(Seq<char>, Seq<char>), Seq<char>> {
    match doc_of(r) {
        Err(why) => Err(within("could not invite"@, why)),
        Ok(d) => match filled(d, "token"@) {
            None => Err("the invitation carried no token"@),
            Some(token) => match text_of(d, "id"@) {
                None => Err("the invitation carried no id"@),
                Some(id) => Ok((token, id)),
            },
        },
    }
}

fn invited_of(r: &Reply) -> (o: Result<(String, String), String>)
    ensures
        (match o { Ok(p) => Ok((p.0@, p.1@)), Err(e) => Err(e@) }) == invited(r@),
{
    match doc(r) {
        Err(why) => Err(inside("could not invite", why.as_str())),
        Ok(d) => match filled_at(&d, "token") {
            None => Err("the invitation carried no token".to_owned()),
            Some(token) => match d.text_at("id") {
                None => Err("the invitation carried no id".to_owned()),
                Some(id) => Ok((token, id)),
            },
        },
    }
}

pub open spec fn team_next(c: RunV, slug: Seq<char>, rs: Seq<ReplyV>) -> NextV {
    link(rs, 0, getting(api_at(c, "/v1/teams/"@ + slug), c.probe_jwt), call_error(rs[0]), NextV::Pass)
}

fn team_body(c: &Run, slug: &str, log: &Log) -> (n: Next)
    ensures
        n@ == team_next(c@, slug@, log@.rs),
{
    if log.rs.len() <= 0 {
        return Next::Ask(get(api(c, cat2("/v1/teams/", slug).as_str()), c.probe_jwt.as_str()));
    }
    end(error(&log.rs[0]))
}

/// An invitation of its own, readable before it is revoked and not to be redeemed afterwards: one
/// that was spent is refused whether or not revoking works.
pub open spec fn invite_revoke_next(c: RunV, slug: Seq<char>, rs: Seq<ReplyV>) -> NextV {
    let token = (invited(rs[0])->Ok_0).0;
    let id = (invited(rs[0])->Ok_0).1;
    link(
        rs, 0,
        posting(
            api_at(c, "/v1/teams/"@ + slug + "/invites"@), c.probe_jwt,
            Doc::Obj(seq![("email"@, Doc::Str(c.other_email)), ("role"@, Doc::Str("member"@))]),
        ),
        err_of(invited(rs[0])),
        link(
            rs, 1, getting(api_at(c, "/v1/invites/"@ + token), c.other_jwt),
            call_failed("a fresh invitation could not be previewed"@, rs[1]),
            link(
                rs, 2,
                deleting(api_at(c, "/v1/teams/"@ + slug + "/invites"@) + "/"@ + id, c.probe_jwt),
                call_failed("could not revoke the invitation"@, rs[2]),
                link(
                    rs, 3,
                    posting_nothing(api_at(c, "/v1/invites/"@ + token + "/accept"@), c.other_jwt),
                    unanswered("a revoked invitation answered "@, seq![401u16, 403u16, 404u16, 410u16], ": "@, rs[3]),
                    NextV::Pass,
                ),
            ),
        ),
    )
}

fn invite_revoke_body(c: &Run, slug: &str, log: &Log) -> (n: Next)
    ensures
        n@ == invite_revoke_next(c@, slug@, log@.rs),
{
    if log.rs.len() <= 0 {
        return Next::Ask(post(
            api(c, cat3("/v1/teams/", slug, "/invites").as_str()), c.probe_jwt.as_str(),
            obj2("email", txt(c.other_email.as_str()), "role", txt("member")),
        ));
    }
    let (token, id) = match invited_of(&log.rs[0]) {
        Err(why) => {
            return Next::Fail(why);
        },
        Ok(t) => t,
    };
    if log.rs.len() <= 1 {
        return Next::Ask(get(api(c, cat2("/v1/invites/", token.as_str()).as_str()), c.other_jwt.as_str()));
    }
    if let Some(why) = failed("a fresh invitation could not be previewed", &log.rs[1]) {
        return Next::Fail(why);
    }
    if log.rs.len() <= 2 {
        return Next::Ask(erase(
            cat3(api(c, cat3("/v1/teams/", slug, "/invites").as_str()).as_str(), "/", id.as_str()), c.probe_jwt.as_str(),
        ));
    }
    if let Some(why) = failed("could not revoke the invitation", &log.rs[2]) {
        return Next::Fail(why);
    }
    if log.rs.len() <= 3 {
        return Next::Ask(post_nothing(api(c, cat3("/v1/invites/", token.as_str(), "/accept").as_str()), c.other_jwt.as_str()));
    }
    end(unanswered_by("a revoked invitation answered ", &codes4(401, 403, 404, 410), ": ", &log.rs[3]))
}

/// The environment is running, a replica of its service is ready, and the service resolves and
/// answers inside its own namespace.
pub open spec fn team_env_ready_next(c: RunV, id: Seq<char>, rs: Seq<ReplyV>) -> NextV {
    link(
        rs, 1,
        AskV::Wait(WaitV::Doc {
            url: api_at(c, "/v1/environments/"@ + id),
            token: c.probe_jwt,
            want: WantV::Field { key: "state"@, value: "running"@ },
            cap_ms: (TEAM_ENV_MS - 60_000) as u64,
        }),
        lost_in("the team environment never reported running"@, rs[1]),
        link(
            rs, 2,
            AskV::Wait(WaitV::Replicas { ns: env_ns(id), name: "redis"@, cap_ms: (TEAM_ENV_MS - 60_000) as u64 }),
            lost_in("the team environment's service never became ready"@, rs[2]),
            link(rs, 3, AskV::Wait(WaitV::Pong { ns: env_ns(id), cap_ms: SVC_ANSWERS_MS }), lost_of(rs[3]), NextV::Pass),
        ),
    )
}

fn team_env_ready_body(c: &Run, id: &str, log: &Log) -> (n: Next)
    ensures
        n@ == team_env_ready_next(c@, id@, log@.rs),
{
    if log.rs.len() <= 1 {
        return Next::Ask(Ask::Wait(Wait::Doc {
            url: api(c, cat2("/v1/environments/", id).as_str()),
            token: c.probe_jwt.clone(),
            want: Want::Field { key: "state".to_owned(), value: "running".to_owned() },
            cap_ms: TEAM_ENV_MS - 60_000,
        }));
    }
    if let Some(why) = lost_within("the team environment never reported running", &log.rs[1]) {
        return Next::Fail(why);
    }
    if log.rs.len() <= 2 {
        return Next::Ask(Ask::Wait(Wait::Replicas {
            ns: env_namespace(id),
            name: "redis".to_owned(),
            cap_ms: TEAM_ENV_MS - 60_000,
        }));
    }
    if let Some(why) = lost_within("the team environment's service never became ready", &log.rs[2]) {
        return Next::Fail(why);
    }
    if log.rs.len() <= 3 {
        return Next::Ask(Ask::Wait(Wait::Pong { ns: env_namespace(id), cap_ms: SVC_ANSWERS_MS }));
    }
    end(lost(&log.rs[3]))
}

/// The team's environment comes up, and is taken away again whatever became of it: it is billed to
/// a team that will not outlive the run, so one left standing fails the step.
pub open spec fn team_environment_next(c: RunV, slug: Seq<char>, log: LogV) -> NextV {
    let id = made("could not create the team environment"@, "id"@, "the answer carried no environment id"@, log.rs[0])->Ok_0;
    link(
        log.rs, 0,
        posting(
            api_at(c, "/v1/environments"@), c.probe_jwt,
            Doc::Obj(seq![
                ("team"@, Doc::Str(slug)),
                ("name"@, Doc::Str(named(c, "-teamenv"@))),
                ("region"@, Doc::Str(c.region)),
                ("quota_gb"@, Doc::Int(QUOTA_GB as int)),
                ("services"@, Doc::Arr(seq![redis_service()])),
            ]),
        ),
        err_of(made("could not create the team environment"@, "id"@, "the answer carried no environment id"@, log.rs[0])),
        closing(
            log, team_env_ready_next(c, id, log.rs), deleting(api_at(c, "/v1/environments/"@ + id), c.probe_jwt),
            call_failed("the team environment "@ + id + " was left standing"@, log.us[0]),
        ),
    )
}

fn team_environment_body(c: &Run, slug: &str, log: &Log) -> (n: Next)
    ensures
        n@ == team_environment_next(c@, slug@, log@),
{
    if log.rs.len() <= 0 {
        return Next::Ask(post(
            api(c, "/v1/environments"), c.probe_jwt.as_str(),
            obj5(
                "team", txt(slug), "name", txt(name(c, "-teamenv").as_str()), "region", txt(c.region.as_str()), "quota_gb",
                int_doc(QUOTA_GB), "services", arr1(redis()),
            ),
        ));
    }
    let id = match made_of("could not create the team environment", "id", "the answer carried no environment id", &log.rs[0]) {
        Err(why) => {
            return Next::Fail(why);
        },
        Ok(t) => t,
    };
    close_after(
        log, team_env_ready_body(c, id.as_str(), log),
        erase(api(c, cat2("/v1/environments/", id.as_str()).as_str()), c.probe_jwt.as_str()),
        undo_failed(cat3("the team environment ", id.as_str(), " was left standing").as_str(), log),
    )
}

/// Attaching writes a policy on the environment's side, and deleting the attached workspace takes
/// it away. It is there first: one that was never written is gone afterwards whatever the delete
/// did.
pub open spec fn attach_pair_next(c: RunV, env: Seq<char>, rs: Seq<ReplyV>) -> NextV {
    let id = made("could not create the workspace"@, "id"@, "the answer carried no workspace id"@, rs[0])->Ok_0;
    link(
        rs, 0,
        posting(
            api_at(c, "/v1/workspaces"@), c.probe_jwt,
            Doc::Obj(seq![
                ("name"@, Doc::Str(named(c, "-att"@))),
                ("region"@, Doc::Str(c.region)),
                ("quota_gb"@, Doc::Int(QUOTA_GB as int)),
                ("packages"@, Doc::Arr(seq![])),
            ]),
        ),
        err_of(made("could not create the workspace"@, "id"@, "the answer carried no workspace id"@, rs[0])),
        link(
            rs, 1,
            AskV::Wait(WaitV::Doc {
                url: api_at(c, "/v1/workspaces/"@ + id),
                token: c.probe_jwt,
                want: WantV::Field { key: "state"@, value: "ready"@ },
                cap_ms: (ATTACH_PAIR_MS - 30_000) as u64,
            }),
            lost_in("the workspace never became ready"@, rs[1]),
            link(
                rs, 2,
                posting(
                    api_at(c, "/v1/workspaces/"@ + id) + "/attach"@, c.probe_jwt,
                    Doc::Obj(seq![("environment"@, Doc::Str(env))]),
                ),
                call_failed("could not attach"@, rs[2]),
                link(
                    rs, 3,
                    AskV::Wait(WaitV::Policy { ns: env_ns(env), name: "attach-"@ + id, want: true, cap_ms: 30_000 }),
                    lost_in("attaching wrote no environment-side policy"@, rs[3]),
                    link(
                        rs, 4, deleting(api_at(c, "/v1/workspaces/"@ + id), c.probe_jwt),
                        call_failed("could not delete the workspace"@, rs[4]),
                        link(
                            rs, 5,
                            AskV::Wait(WaitV::Policy { ns: env_ns(env), name: "attach-"@ + id, want: false, cap_ms: 30_000 }),
                            lost_in("deleting the attached workspace left the environment-side policy standing"@, rs[5]),
                            NextV::Pass,
                        ),
                    ),
                ),
            ),
        ),
    )
}

fn attach_pair_body(c: &Run, env: &str, log: &Log) -> (n: Next)
    ensures
        n@ == attach_pair_next(c@, env@, log@.rs),
{
    if log.rs.len() <= 0 {
        return Next::Ask(post(
            api(c, "/v1/workspaces"), c.probe_jwt.as_str(),
            obj4(
                "name", txt(name(c, "-att").as_str()), "region", txt(c.region.as_str()), "quota_gb", int_doc(QUOTA_GB),
                "packages", arr0(),
            ),
        ));
    }
    let id = match made_of("could not create the workspace", "id", "the answer carried no workspace id", &log.rs[0]) {
        Err(why) => {
            return Next::Fail(why);
        },
        Ok(t) => t,
    };
    if log.rs.len() <= 1 {
        return Next::Ask(Ask::Wait(Wait::Doc {
            url: api(c, cat2("/v1/workspaces/", id.as_str()).as_str()),
            token: c.probe_jwt.clone(),
            want: Want::Field { key: "state".to_owned(), value: "ready".to_owned() },
            cap_ms: ATTACH_PAIR_MS - 30_000,
        }));
    }
    if let Some(why) = lost_within("the workspace never became ready", &log.rs[1]) {
        return Next::Fail(why);
    }
    if log.rs.len() <= 2 {
        return Next::Ask(post(
            cat2(api(c, cat2("/v1/workspaces/", id.as_str()).as_str()).as_str(), "/attach"), c.probe_jwt.as_str(),
            obj1("environment", txt(env)),
        ));
    }
    if let Some(why) = failed("could not attach", &log.rs[2]) {
        return Next::Fail(why);
    }
    if log.rs.len() <= 3 {
        return Next::Ask(Ask::Wait(Wait::Policy {
            ns: env_namespace(env),
            name: cat2("attach-", id.as_str()),
            want: true,
            cap_ms: 30_000,
        }));
    }
    if let Some(why) = lost_within("attaching wrote no environment-side policy", &log.rs[3]) {
        return Next::Fail(why);
    }
    if log.rs.len() <= 4 {
        return Next::Ask(erase(api(c, cat2("/v1/workspaces/", id.as_str()).as_str()), c.probe_jwt.as_str()));
    }
    if let Some(why) = failed("could not delete the workspace", &log.rs[4]) {
        return Next::Fail(why);
    }
    if log.rs.len() <= 5 {
        return Next::Ask(Ask::Wait(Wait::Policy {
            ns: env_namespace(env),
            name: cat2("attach-", id.as_str()),
            want: false,
            cap_ms: 30_000,
        }));
    }
    end(lost_within("deleting the attached workspace left the environment-side policy standing", &log.rs[5]))
}

pub enum Body {
    /// Whether the team is there.
    Team { slug: String },
    InviteRevoke { slug: String },
    TeamEnvironment { slug: String },
    AttachPair { env: String },
}

pub enum BodyV {
    Team { slug: Seq<char> },
    InviteRevoke { slug: Seq<char> },
    TeamEnvironment { slug: Seq<char> },
    AttachPair { env: Seq<char> },
}

impl View for Body {
    type V = BodyV;

    open spec fn view(&self) -> BodyV {
        match self {
            Body::Team { slug } => BodyV::Team { slug: slug@ },
            Body::InviteRevoke { slug } => BodyV::InviteRevoke { slug: slug@ },
            Body::TeamEnvironment { slug } => BodyV::TeamEnvironment { slug: slug@ },
            Body::AttachPair { env } => BodyV::AttachPair { env: env@ },
        }
    }
}

/// What a body does next.
pub open spec fn body_next(c: RunV, b: BodyV, log: LogV) -> NextV {
    match b {
        BodyV::Team { slug } => team_next(c, slug, log.rs),
        BodyV::InviteRevoke { slug } => invite_revoke_next(c, slug, log.rs),
        BodyV::TeamEnvironment { slug } => team_environment_next(c, slug, log),
        BodyV::AttachPair { env } => attach_pair_next(c, env, log.rs),
    }
}

/// What a body has learned: the id of a team's environment, as soon as there is one, so that whatever
/// becomes of the body its volume can be found.
pub open spec fn body_found(b: BodyV, log: LogV) -> Option<Seq<char>> {
    match b {
        BodyV::TeamEnvironment { .. } => if log.rs.len() > 0 { id_in(log.rs[0]) } else { None },
        _ => None,
    }
}

impl Body {
    pub fn next(&self, c: &Run, log: &Log) -> (n: Next)
        ensures
            n@ == body_next(c@, self@, log@),
    {
        match self {
            Body::Team { slug } => team_body(c, slug.as_str(), log),
            Body::InviteRevoke { slug } => invite_revoke_body(c, slug.as_str(), log),
            Body::TeamEnvironment { slug } => team_environment_body(c, slug.as_str(), log),
            Body::AttachPair { env } => attach_pair_body(c, env.as_str(), log),
        }
    }

    pub fn found(&self, log: &Log) -> (r: Option<String>)
        ensures
            opt(r) == body_found(self@, log@),
    {
        match self {
            Body::TeamEnvironment { .. } => {
                if log.rs.len() > 0 { id_of(&log.rs[0]) } else { None }
            },
            _ => None,
        }
    }
}

/// A journey behind a team: without the team it is skipped.
pub open spec fn behind_team(id: Seq<char>, ceiling_ms: u64, slug: Seq<char>, body: BodyV, os: Seq<OutcomeV>) -> MoveV<BodyV> {
    if os.len() == 0 {
        MoveV::Look { body: BodyV::Team { slug } }
    } else if os.len() == 1 {
        if passed(os[0]) { MoveV::Step { id, ceiling_ms, body } } else { MoveV::Skip { id, why: "the team was never created"@ } }
    } else {
        MoveV::End
    }
}

fn after_team(id: &'static str, ceiling_ms: u64, slug: &str, body: Body, os: &Vec<Outcome>) -> (m: Move<Body>)
    ensures
        m@ == behind_team(id@, ceiling_ms, slug@, body@, outcomes(os@)),
{
    if os.len() == 0 {
        look(Body::Team { slug: slug.to_owned() })
    } else if os.len() == 1 {
        if os[0].passed() { step(id, ceiling_ms, body) } else { skip(id, "the team was never created") }
    } else {
        Move::End
    }
}

pub open spec fn invite_revoke_move(c: RunV, os: Seq<OutcomeV>) -> MoveV<BodyV> {
    behind_team("team.invite.revoke"@, QUICK_MS, team_slug_of(c), BodyV::InviteRevoke { slug: team_slug_of(c) }, os)
}

/// `team.invite.revoke`.
pub fn invite_revoke(c: &Run, os: &Vec<Outcome>) -> (m: Move<Body>)
    ensures
        m@ == invite_revoke_move(c@, outcomes(os@)),
{
    after_team("team.invite.revoke", QUICK_MS, team_slug(c).as_str(), Body::InviteRevoke { slug: team_slug(c) }, os)
}

pub open spec fn team_environment_move(c: RunV, os: Seq<OutcomeV>) -> MoveV<BodyV> {
    if !c.has_kube {
        if os.len() == 0 { MoveV::Skip { id: "team.environment"@, why: "no kubeconfig"@ } } else { MoveV::End }
    } else {
        behind_team("team.environment"@, TEAM_ENV_MS, team_slug_of(c), BodyV::TeamEnvironment { slug: team_slug_of(c) }, os)
    }
}

/// `team.environment`.
pub fn team_environment(c: &Run, os: &Vec<Outcome>) -> (m: Move<Body>)
    ensures
        m@ == team_environment_move(c@, outcomes(os@)),
{
    if !c.has_kube {
        if os.len() == 0 { skip("team.environment", "no kubeconfig") } else { Move::End }
    } else {
        after_team("team.environment", TEAM_ENV_MS, team_slug(c).as_str(), Body::TeamEnvironment { slug: team_slug(c) }, os)
    }
}

pub open spec fn attach_pair_move(c: RunV, s: StateV, os: Seq<OutcomeV>) -> MoveV<BodyV> {
    one_move(
        "env.attach.pair"@, ATTACH_PAIR_MS, if c.has_kube { "no environment to attach to"@ } else { "no kubeconfig"@ },
        (match s.env_multi { Some(env) => if c.has_kube { Some(BodyV::AttachPair { env }) } else { None }, None => None }), os,
    )
}

/// `env.attach.pair`.
pub fn attach_pair(c: &Run, s: &State, os: &Vec<Outcome>) -> (m: Move<Body>)
    ensures
        m@ == attach_pair_move(c@, s@, outcomes(os@)),
{
    let body = match &s.env_multi {
        Some(env) => {
            if c.has_kube { Some(Body::AttachPair { env: env.clone() }) } else { None }
        },
        None => None,
    };
    let why = if c.has_kube { "no environment to attach to" } else { "no kubeconfig" };
    one("env.attach.pair", ATTACH_PAIR_MS, why, body, os)
}

/// Each of the three ids is reported exactly once.
pub proof fn law_every_id_is_reported_once(c: RunV, s: StateV, os: Seq<OutcomeV>)
    ensures
        reports_exactly(|o: Seq<OutcomeV>| invite_revoke_move(c, o), os, seq!["team.invite.revoke"@], 2),
        reports_exactly(|o: Seq<OutcomeV>| team_environment_move(c, o), os, seq!["team.environment"@], 2),
        reports_exactly(|o: Seq<OutcomeV>| attach_pair_move(c, s, o), os, seq!["env.attach.pair"@], 2),
    decreases os.len(),
{
    reveal_with_fuel(reports, 3);
    if os.len() > 2 {
        law_every_id_is_reported_once(c, s, os.drop_last());
    }
}

/// A team's environment that was made is known before anything else can fail, and the body is not
/// over before its delete was asked for.
pub proof fn law_a_team_environment_is_taken_away(c: RunV, slug: Seq<char>, log: LogV)
    requires
        log.rs.len() > 0,
        made("could not create the team environment"@, "id"@, "the answer carried no environment id"@, log.rs[0]) is Ok,
    ensures
        body_found(BodyV::TeamEnvironment { slug }, log) is Some,
        log.us.len() == 0 ==> !(team_environment_next(c, slug, log) is Pass) && !(team_environment_next(c, slug, log) is Fail),
        log.us.len() > 0 && team_environment_next(c, slug, log) is Pass ==> call_error(log.us[0]) is None,
{
}

/// What `team.environment` leaves for the teardown: its environment's volume, which no prefix finds,
/// whatever became of the rest.
pub open spec fn environment_left(s: StateV, os: Seq<OutcomeV>) -> StateV {
    with_volume(s, learned_by(os, 1))
}

pub fn environment_leaves(s: &State, os: &Vec<Outcome>) -> (t: State)
    ensures
        t@ == environment_left(s@, outcomes(os@)),
{
    s.remembering(learned(os, 1))
}

} // verus!
