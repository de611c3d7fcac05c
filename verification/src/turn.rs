//! A stage as a walk of moves.
//!
//! A stage is a function from the outcomes of its moves so far to its next move: report a step as
//! skipped, run a step and report it, look something up without reporting it, or end.

use vstd::prelude::*;

use crate::wire::opt;

verus! {

pub enum Move<B> {
    /// Report `id` as skipped.
    Skip { id: &'static str, why: String },
    /// Run a body under `id` and report how it went. A body still running after `ceiling_ms` is cut
    /// off and has failed.
    Step { id: &'static str, ceiling_ms: u64, body: B },
    /// Report what was last reported of `id` as skipped after all.
    Demote { id: &'static str, why: String },
    /// Run a body that reports nothing.
    Look { body: B },
    End,
}

pub enum MoveV<B> {
    Skip { id: Seq<char>, why: Seq<char> },
    Step { id: Seq<char>, ceiling_ms: u64, body: B },
    Demote { id: Seq<char>, why: Seq<char> },
    Look { body: B },
    End,
}

impl<B: View> View for Move<B> {
    type V = MoveV<B::V>;

    open spec fn view(&self) -> MoveV<B::V> {
        match self {
            Move::Skip { id, why } => MoveV::Skip { id: id@, why: why@ },
            Move::Step { id, ceiling_ms, body } => MoveV::Step { id: id@, ceiling_ms: *ceiling_ms, body: body@ },
            Move::Demote { id, why } => MoveV::Demote { id: id@, why: why@ },
            Move::Look { body } => MoveV::Look { body: body@ },
            Move::End => MoveV::End,
        }
    }
}

/// The id a move reports under, where it reports: a report that is only judged anew is not a second one.
pub open spec fn reported<B>(m: MoveV<B>) -> Option<Seq<char>> {
    match m {
        MoveV::Skip { id, .. } => Some(id),
        MoveV::Step { id, .. } => Some(id),
        _ => None,
    }
}

/// The ids a walk has reported under, in order, once its moves so far had the outcomes `os`.
pub open spec fn reports<B>(walk: spec_fn(Seq<OutcomeV>) -> MoveV<B>, os: Seq<OutcomeV>) -> Seq<Seq<char>>
    decreases os.len(),
{
    if os.len() == 0 {
        seq![]
    } else {
        let before = reports(walk, os.drop_last());
        match reported(walk(os.drop_last())) {
            Some(id) => before.push(id),
            None => before,
        }
    }
}

/// A walk that is over has reported exactly `ids`, in that order, and every walk is over after `most`
/// moves.
pub open spec fn reports_exactly<B>(
    walk: spec_fn(Seq<OutcomeV>) -> MoveV<B>, os: Seq<OutcomeV>, ids: Seq<Seq<char>>, most: nat,
) -> bool {
    &&& walk(os) is End ==> reports(walk, os) =~= ids
    &&& os.len() >= most ==> walk(os) is End
}

/// How a move went.
pub enum Outcome {
    Skipped,
    /// The body passed; `found` is the id it learned, where it was after one.
    Passed { found: Option<String> },
    /// The body failed, having learned `found` all the same.
    Failed { why: String, found: Option<String> },
}

pub enum OutcomeV {
    Skipped,
    Passed { found: Option<Seq<char>> },
    Failed { why: Seq<char>, found: Option<Seq<char>> },
}

impl View for Outcome {
    type V = OutcomeV;

    open spec fn view(&self) -> OutcomeV {
        match self {
            Outcome::Skipped => OutcomeV::Skipped,
            Outcome::Passed { found } => OutcomeV::Passed { found: opt(*found) },
            Outcome::Failed { why, found } => OutcomeV::Failed { why: why@, found: opt(*found) },
        }
    }
}

/// The views of the outcomes so far.
pub open spec fn outcomes(os: Seq<Outcome>) -> Seq<OutcomeV> {
    Seq::new(os.len(), |i: int| os[i]@)
}

/// Whether a move passed.
pub open spec fn passed(o: OutcomeV) -> bool {
    o is Passed
}

/// What a move learned.
pub open spec fn found_in(o: OutcomeV) -> Option<Seq<char>> {
    match o {
        OutcomeV::Skipped => None,
        OutcomeV::Passed { found } => found,
        OutcomeV::Failed { found, .. } => found,
    }
}

/// What a move learned, where it passed.
pub open spec fn passed_with(o: OutcomeV) -> Option<Seq<char>> {
    match o {
        OutcomeV::Passed { found } => found,
        _ => None,
    }
}

/// Why a move failed; nothing where it did not.
pub open spec fn failure(o: OutcomeV) -> Option<Seq<char>> {
    match o {
        OutcomeV::Failed { why, .. } => Some(why),
        _ => None,
    }
}

/// Why a move failed, in words; none where it did not.
pub open spec fn failure_or_empty(o: OutcomeV) -> Seq<char> {
    match failure(o) {
        Some(why) => why,
        None => seq![],
    }
}

impl Outcome {
    pub fn failure_or_empty(&self) -> (r: String)
        ensures
            r@ == failure_or_empty(self@),
    {
        match self {
            Outcome::Failed { why, .. } => why.clone(),
            _ => String::new(),
        }
    }

    pub fn passed(&self) -> (r: bool)
        ensures
            r == passed(self@),
    {
        match self {
            Outcome::Passed { .. } => true,
            _ => false,
        }
    }

    pub fn found(&self) -> (r: Option<String>)
        ensures
            opt(r) == found_in(self@),
    {
        match self {
            Outcome::Skipped => None,
            Outcome::Passed { found } => found.clone(),
            Outcome::Failed { found, .. } => found.clone(),
        }
    }

    pub fn passed_with(&self) -> (r: Option<String>)
        ensures
            opt(r) == passed_with(self@),
    {
        match self {
            Outcome::Passed { found } => found.clone(),
            _ => None,
        }
    }

    pub fn failure(&self) -> (r: Option<String>)
        ensures
            opt(r) == failure(self@),
    {
        match self {
            Outcome::Failed { why, .. } => Some(why.clone()),
            _ => None,
        }
    }
}

/// What the move `k` learned; nothing where there was none.
pub open spec fn learned_by(os: Seq<OutcomeV>, k: int) -> Option<Seq<char>> {
    if 0 <= k < os.len() { found_in(os[k]) } else { None }
}

pub fn learned(os: &Vec<Outcome>, k: usize) -> (r: Option<String>)
    ensures
        opt(r) == learned_by(outcomes(os@), k as int),
{
    if k < os.len() { os[k].found() } else { None }
}

/// Whether there was a move `k`, and it passed.
pub open spec fn passed_by(os: Seq<OutcomeV>, k: int) -> bool {
    0 <= k < os.len() && passed(os[k])
}

pub fn did_pass(os: &Vec<Outcome>, k: usize) -> (r: bool)
    ensures
        r == passed_by(outcomes(os@), k as int),
{
    k < os.len() && os[k].passed()
}

/// `a` and `b` together, or as much as there is room for.
pub open spec fn more(a: u64, b: u64) -> u64 {
    if a + b <= u64::MAX { (a + b) as u64 } else { u64::MAX }
}

pub fn skip<B: View>(id: &'static str, why: &str) -> (m: Move<B>)
    ensures
        m@ == (MoveV::<B::V>::Skip { id: id@, why: why@ }),
{
    Move::Skip { id, why: why.to_owned() }
}

pub fn step<B: View>(id: &'static str, ceiling_ms: u64, body: B) -> (m: Move<B>)
    ensures
        m@ == (MoveV::<B::V>::Step { id: id@, ceiling_ms, body: body@ }),
{
    Move::Step { id, ceiling_ms, body }
}

pub fn look<B: View>(body: B) -> (m: Move<B>)
    ensures
        m@ == (MoveV::<B::V>::Look { body: body@ }),
{
    Move::Look { body }
}

/// The move of a journey that is one step behind one condition: with no body there is a reason.
pub open spec fn one_move<B>(id: Seq<char>, ceiling_ms: u64, why: Seq<char>, body: Option<B>, os: Seq<OutcomeV>) -> MoveV<B> {
    if os.len() > 0 {
        MoveV::End
    } else {
        match body {
            Some(body) => MoveV::Step { id, ceiling_ms, body },
            None => MoveV::Skip { id, why },
        }
    }
}

/// The view of an optional body.
pub open spec fn opt_body<B: View>(b: Option<B>) -> Option<B::V> {
    match b {
        Some(b) => Some(b@),
        None => None,
    }
}

pub fn one<B: View>(id: &'static str, ceiling_ms: u64, why: &str, body: Option<B>, os: &Vec<Outcome>) -> (m: Move<B>)
    ensures
        m@ == one_move(id@, ceiling_ms, why@, opt_body(body), outcomes(os@)),
{
    if os.len() > 0 {
        Move::End
    } else {
        match body {
            Some(body) => step(id, ceiling_ms, body),
            None => skip(id, why),
        }
    }
}

/// A journey of one step reports its id exactly once, whether it runs or is skipped.
pub proof fn law_one_step_is_reported_once<B>(id: Seq<char>, ceiling_ms: u64, why: Seq<char>, body: Option<B>, os: Seq<OutcomeV>)
    ensures
        reports_exactly(|o: Seq<OutcomeV>| one_move(id, ceiling_ms, why, body, o), os, seq![id], 1),
    decreases os.len(),
{
    reveal_with_fuel(reports, 2);
    if os.len() > 1 {
        law_one_step_is_reported_once(id, ceiling_ms, why, body, os.drop_last());
    }
}

} // verus!
