//! Change requests: the description, the four merge strategies, and the verdict the merge button is drawn from.

use vstd::prelude::*;

use crate::json::{Doc, Json, arr1, obj1, obj2, obj3, obj4, text_of, txt};
use crate::outside::{base64_text, debug, debug_text, encode64};
use crate::reply::{call_failed, doc, doc_of, failed, lost, lost_in, lost_of, lost_within, numbered, numbered_of};
use crate::run::{Run, RunV, State, StateV, api, api_at};
use crate::stages::gaps::{MERGEABILITY_MS, MERGE_LAND_MS, MERGE_MS, READ_MS, STRATEGIES};
use crate::stages::git::BASE_BRANCH;
use crate::text::{cat2, cat3, cat4, cat5, cat6, cat7, cat8, same};
use crate::turn::{Move, MoveV, Outcome, OutcomeV, one, one_move, outcomes, reports, reports_exactly};
use crate::wait::{Wait, WaitV};
use crate::want::{Want, WantV, judged, judgement};
use crate::wire::{
    Ask, AskV, Log, LogV, Next, NextV, Reply, ReplyV, and_on, end, err_of, get, getting, inside, link, opt, patch, patching,
    post, posting, within,
};

verus! {

/// Why a repo does not read back the description that was saved.
pub open spec fn undescribed(want: Seq<char>, r: ReplyV) -> Option<Seq<char>> {
    match doc_of(r) {
        Err(why) => Some(within("could not read the repo back"@, why)),
        Ok(d) => match text_of(d, "description"@) {
            Some(got) => if got == want {
                None
            } else {
                Some("the repo reads back Some("@ + debug_text(got) + "), not the description just saved"@)
            },
            None => Some("the repo reads back None, not the description just saved"@),
        },
    }
}

fn undescribed_by(want: &str, r: &Reply) -> (o: Option<String>)
    ensures
        opt(o) == undescribed(want@, r@),
{
    match doc(r) {
        Err(why) => Some(inside("could not read the repo back", why.as_str())),
        Ok(d) => match d.text_at("description") {
            Some(got) => {
                if same(got.as_str(), want) {
                    None
                } else {
                    Some(cat3("the repo reads back Some(", debug(got.as_str()).as_str(), "), not the description just saved"))
                }
            },
            None => Some("the repo reads back None, not the description just saved".to_owned()),
        },
    }
}

/// A description that was saved is the one that is read back: an answer that it was saved says
/// nothing of who can read it.
pub open spec fn description_next(c: RunV, name: Seq<char>, rs: Seq<ReplyV>) -> NextV {
    link(
        rs, 0,
        patching(
            api_at(c, "/v1/repos/"@ + c.probe_user + "/"@ + name), c.probe_jwt,
            Doc::Obj(seq![("description"@, Doc::Str("slo probe "@ + c.run_id))]),
        ),
        call_failed("could not save the description"@, rs[0]),
        link(
            rs, 1,
            getting(api_at(c, "/v1/repos/"@ + c.probe_user + "/"@ + name), c.probe_jwt),
            undescribed("slo probe "@ + c.run_id, rs[1]), NextV::Pass,
        ),
    )
}

fn description_body(c: &Run, name: &str, log: &Log) -> (n: Next)
    ensures
        n@ == description_next(c@, name@, log@.rs),
{
    if log.rs.len() <= 0 {
        return Next::Ask(patch(
            api(c, cat4("/v1/repos/", c.probe_user.as_str(), "/", name).as_str()), c.probe_jwt.as_str(),
            obj1("description", txt(cat2("slo probe ", c.run_id.as_str()).as_str())),
        ));
    }
    if let Some(why) = failed("could not save the description", &log.rs[0]) {
        return Next::Fail(why);
    }
    if log.rs.len() <= 1 {
        return Next::Ask(get(api(c, cat4("/v1/repos/", c.probe_user.as_str(), "/", name).as_str()), c.probe_jwt.as_str()));
    }
    end(undescribed_by(cat2("slo probe ", c.run_id.as_str()).as_str(), &log.rs[1]))
}

/// One strategy: a branch with a file only it writes, a change, the merge, and the file as the base
/// branch has it then. That a change is merged is a record; that its tree landed is what is
/// checked.
pub open spec fn one_strategy_next(c: RunV, name: Seq<char>, strategy: Seq<char>, rs: Seq<ReplyV>) -> NextV {
    let number = numbered("could not open the change"@, rs[1])->Ok_0;
    link(
        rs, 0,
        posting(
            api_at(c, "/v1/repos/"@ + c.probe_user + "/"@ + name + "/commits"@), c.probe_jwt,
            Doc::Obj(seq![
                ("branch"@, Doc::Str(BASE_BRANCH@)),
                ("newBranch"@, Doc::Str("run-"@ + c.run_id + "-"@ + strategy)),
                ("message"@, Doc::Str("slo "@ + strategy + " "@ + c.run_id)),
                (
                    "changes"@,
                    Doc::Arr(seq![
                        Doc::Obj(seq![
                            ("path"@, Doc::Str(strategy + ".txt"@)),
                            ("contentBase64"@, Doc::Str(base64_text(c.run_id + " "@ + strategy + "\n"@))),
                        ]),
                    ]),
                ),
            ]),
        ),
        call_failed("could not make the branch"@, rs[0]),
        link(
            rs, 1,
            posting(
                api_at(c, "/v1/repos/"@ + c.probe_user + "/"@ + name + "/pulls"@), c.probe_jwt,
                Doc::Obj(seq![
                    ("title"@, Doc::Str("slo "@ + strategy + " "@ + c.run_id)),
                    ("base"@, Doc::Str(BASE_BRANCH@)),
                    ("head"@, Doc::Str("run-"@ + c.run_id + "-"@ + strategy)),
                ]),
            ),
            err_of(numbered("could not open the change"@, rs[1])),
            link(
                rs, 2,
                posting(
                    api_at(c, "/v1/repos/"@ + c.probe_user + "/"@ + name + "/pulls/"@ + number + "/merge?strategy="@ + strategy),
                    c.probe_jwt, Doc::Null,
                ),
                call_failed("the merge was refused"@, rs[2]),
                link(
                    rs, 3,
                    AskV::Wait(WaitV::Doc {
                        url: api_at(c, "/v1/repos/"@ + c.probe_user + "/"@ + name + "/pulls/"@ + number),
                        token: c.probe_jwt,
                        want: WantV::Field { key: "state"@, value: "merged"@ },
                        cap_ms: 60_000,
                    }),
                    lost_in("the change never reached `merged`"@, rs[3]),
                    link(
                        rs, 4,
                        AskV::Wait(WaitV::Landed {
                            refs: api_at(c, "/api/"@ + c.probe_user + "/"@ + name + "/refs"@),
                            blobs: api_at(c, "/api/"@ + c.probe_user + "/"@ + name + "/blob"@),
                            token: c.probe_jwt,
                            path: strategy + ".txt"@,
                            text: c.run_id + " "@ + strategy + "\n"@,
                            cap_ms: MERGE_LAND_MS,
                        }),
                        lost_of(rs[4]), NextV::Pass,
                    ),
                ),
            ),
        ),
    )
}

fn one_strategy_body(c: &Run, name: &str, strategy: &str, log: &Log, from: usize) -> (n: Next)
    requires
        from <= log@.rs.len(),
    ensures
        n@ == one_strategy_next(c@, name@, strategy@, log@.rs.skip(from as int)),
{
    if log.rs.len() - from <= 0 {
        return Next::Ask(post(
            api(c, cat5("/v1/repos/", c.probe_user.as_str(), "/", name, "/commits").as_str()), c.probe_jwt.as_str(),
            obj4(
                "branch", txt(BASE_BRANCH), "newBranch",
                txt(cat4("run-", c.run_id.as_str(), "-", strategy).as_str()), "message",
                txt(cat4("slo ", strategy, " ", c.run_id.as_str()).as_str()), "changes",
                arr1(obj2(
                    "path", txt(cat2(strategy, ".txt").as_str()), "contentBase64",
                    txt(encode64(cat4(c.run_id.as_str(), " ", strategy, "\n").as_str()).as_str()),
                )),
            ),
        ));
    }
    if let Some(why) = failed("could not make the branch", &log.rs[from]) {
        return Next::Fail(why);
    }
    if log.rs.len() - from <= 1 {
        return Next::Ask(post(
            api(c, cat5("/v1/repos/", c.probe_user.as_str(), "/", name, "/pulls").as_str()), c.probe_jwt.as_str(),
            obj3(
                "title",
                txt(cat4("slo ", strategy, " ", c.run_id.as_str()).as_str()), "base", txt(BASE_BRANCH), "head",
                txt(cat4("run-", c.run_id.as_str(), "-", strategy).as_str()),
            ),
        ));
    }
    let number = match numbered_of("could not open the change", &log.rs[from + 1]) {
        Err(why) => {
            return Next::Fail(why);
        },
        Ok(t) => t,
    };
    if log.rs.len() - from <= 2 {
        return Next::Ask(post(
            api(
                c,
                cat8(
                    "/v1/repos/", c.probe_user.as_str(), "/", name, "/pulls/", number.as_str(), "/merge?strategy=", strategy,
                ).as_str(),
            ),
            c.probe_jwt.as_str(), Json::Null,
        ));
    }
    if let Some(why) = failed("the merge was refused", &log.rs[from + 2]) {
        return Next::Fail(why);
    }
    if log.rs.len() - from <= 3 {
        return Next::Ask(Ask::Wait(Wait::Doc {
            url: api(c, cat6("/v1/repos/", c.probe_user.as_str(), "/", name, "/pulls/", number.as_str()).as_str()),
            token: c.probe_jwt.clone(),
            want: Want::Field { key: "state".to_owned(), value: "merged".to_owned() },
            cap_ms: 60_000,
        }));
    }
    if let Some(why) = lost_within("the change never reached `merged`", &log.rs[from + 3]) {
        return Next::Fail(why);
    }
    if log.rs.len() - from <= 4 {
        return Next::Ask(Ask::Wait(Wait::Landed {
            refs: api(c, cat5("/api/", c.probe_user.as_str(), "/", name, "/refs").as_str()),
            blobs: api(c, cat5("/api/", c.probe_user.as_str(), "/", name, "/blob").as_str()),
            token: c.probe_jwt.clone(),
            path: cat2(strategy, ".txt"),
            text: cat4(c.run_id.as_str(), " ", strategy, "\n"),
            cap_ms: MERGE_LAND_MS,
        }));
    }
    end(lost(&log.rs[from + 4]))
}

/// A body whose failure is told in a wider context.
pub open spec fn in_context(context: Seq<char>, n: NextV) -> NextV {
    match n {
        NextV::Fail(why) => NextV::Fail(within(context, why)),
        _ => n,
    }
}

/// The strategies from the place `i` on, one after the other: each runs to its end before the next
/// begins, and the first that fails fails the whole.
pub open spec fn strategies_next(c: RunV, name: Seq<char>, i: nat, rs: Seq<ReplyV>) -> NextV
    decreases 4 - i,
{
    if i >= 4 {
        NextV::Pass
    } else {
        and_on(
            in_context("the "@ + STRATEGIES[i as int]@ + " strategy"@, one_strategy_next(c, name, STRATEGIES[i as int]@, rs.skip(5 * i as int))),
            strategies_next(c, name, i + 1, rs),
        )
    }
}

fn merge_strategies_body(c: &Run, name: &str, log: &Log) -> (n: Next)
    ensures
        n@ == strategies_next(c@, name@, 0, log@.rs),
{
    let mut i: usize = 0;
    while i < 4
        invariant
            i <= 4,
            5 * i <= log.rs@.len(),
            strategies_next(c@, name@, 0, log@.rs) == strategies_next(c@, name@, i as nat, log@.rs),
        decreases 4 - i,
    {
        match one_strategy_body(c, name, STRATEGIES[i], log, 5 * i) {
            Next::Pass => {},
            Next::Fail(why) => {
                return Next::Fail(inside(cat3("the ", STRATEGIES[i], " strategy").as_str(), why.as_str()));
            },
            other => {
                return other;
            },
        }
        i = i + 1;
    }
    Next::Pass
}

/// A run whose strategies have all passed has had, for each of them, the merge of its own change
/// and its own file on the base branch.
pub proof fn law_every_strategy_landed(c: RunV, name: Seq<char>, i: int, rs: Seq<ReplyV>)
    requires
        strategies_next(c, name, 0, rs) is Pass,
        0 <= i < 4,
    ensures
        rs.len() >= 20,
        lost_of(rs[5 * i + 3]) is None,
        lost_of(rs[5 * i + 4]) is None,
{
    reveal_with_fuel(strategies_next, 5);
    assert(one_strategy_next(c, name, STRATEGIES[i]@, rs.skip(5 * i)) is Pass);
    assert(rs.skip(5 * i)[3] == rs[5 * i + 3]);
    assert(rs.skip(5 * i)[4] == rs[5 * i + 4]);
}

/// Why the verdict on a change is not the one asked for. A verdict that is not worked out is
/// neither answer.
pub open spec fn misjudged(number: Seq<char>, want: Seq<char>, r: ReplyV) -> Option<Seq<char>> {
    match lost_in("change "@ + number + "'s mergeability was never worked out"@, r) {
        Some(why) => Some(why),
        None => match doc_of(r) {
            Err(why) => Some(why),
            Ok(d) => if judged(d) == want {
                None
            } else {
                Some("change "@ + number + " reports `"@ + judged(d) + "`, not `"@ + want + "`"@)
            },
        },
    }
}

fn verdict(number: &str, want: &str, r: &Reply) -> (o: Option<String>)
    ensures
        opt(o) == misjudged(number@, want@, r@),
{
    if let Some(why) = lost_within(cat3("change ", number, "'s mergeability was never worked out").as_str(), r) {
        return Some(why);
    }
    match doc(r) {
        Err(why) => Some(why),
        Ok(d) => {
            let got = judgement(&d);
            if same(got.as_str(), want) {
                None
            } else {
                Some(cat7("change ", number, " reports `", got.as_str(), "`, not `", want, "`"))
            }
        },
    }
}

/// Both verdicts, since either alone could be given to everything. Both branches write the same
/// path and are cut before either lands: one cut afterwards would start from the other's line, and
/// conflict with nothing.
pub open spec fn mergeability_next(c: RunV, name: Seq<char>, rs: Seq<ReplyV>) -> NextV {
    let clean = numbered("could not open the change"@, rs[2])->Ok_0;
    let dirty = numbered("could not open the change"@, rs[6])->Ok_0;
    link(
        rs, 0,
        posting(
            api_at(c, "/v1/repos/"@ + c.probe_user + "/"@ + name + "/commits"@), c.probe_jwt,
            Doc::Obj(seq![
                ("branch"@, Doc::Str(BASE_BRANCH@)),
                ("newBranch"@, Doc::Str("run-"@ + c.run_id + "-clean"@)),
                ("message"@, Doc::Str("slo clean "@ + c.run_id)),
                (
                    "changes"@,
                    Doc::Arr(seq![
                        Doc::Obj(seq![
                            ("path"@, Doc::Str("conflict-"@ + c.run_id + ".txt"@)),
                            ("contentBase64"@, Doc::Str(base64_text("one\n"@))),
                        ]),
                    ]),
                ),
            ]),
        ),
        call_failed("could not make "@ + ("run-"@ + c.run_id + "-clean"@), rs[0]),
        link(
            rs, 1,
            posting(
                api_at(c, "/v1/repos/"@ + c.probe_user + "/"@ + name + "/commits"@), c.probe_jwt,
                Doc::Obj(seq![
                    ("branch"@, Doc::Str(BASE_BRANCH@)),
                    ("newBranch"@, Doc::Str("run-"@ + c.run_id + "-dirty"@)),
                    ("message"@, Doc::Str("slo dirty "@ + c.run_id)),
                    (
                        "changes"@,
                        Doc::Arr(seq![
                            Doc::Obj(seq![
                                ("path"@, Doc::Str("conflict-"@ + c.run_id + ".txt"@)),
                                ("contentBase64"@, Doc::Str(base64_text("two\n"@))),
                            ]),
                        ]),
                    ),
                ]),
            ),
            call_failed("could not make "@ + ("run-"@ + c.run_id + "-dirty"@), rs[1]),
            link(
                rs, 2,
                posting(
                    api_at(c, "/v1/repos/"@ + c.probe_user + "/"@ + name + "/pulls"@), c.probe_jwt,
                    Doc::Obj(seq![
                        ("title"@, Doc::Str("slo clean "@ + c.run_id)),
                        ("base"@, Doc::Str(BASE_BRANCH@)),
                        ("head"@, Doc::Str("run-"@ + c.run_id + "-clean"@)),
                    ]),
                ),
                err_of(numbered("could not open the change"@, rs[2])),
                link(
                    rs, 3,
                    AskV::Wait(WaitV::Doc {
                        url: api_at(c, "/v1/repos/"@ + c.probe_user + "/"@ + name + "/pulls/"@ + clean),
                        token: c.probe_jwt,
                        want: WantV::Judged,
                        cap_ms: 25_000,
                    }),
                    misjudged(clean, "clean"@, rs[3]),
                    link(
                        rs, 4,
                        posting(
                            api_at(
                                c,
                                "/v1/repos/"@ + c.probe_user + "/"@ + name + "/pulls/"@ + clean
                                    + "/merge?strategy=fast-forward"@,
                            ),
                            c.probe_jwt, Doc::Null,
                        ),
                        call_failed("could not land the clean change"@, rs[4]),
                        link(
                            rs, 5,
                            AskV::Wait(WaitV::Doc {
                                url: api_at(c, "/v1/repos/"@ + c.probe_user + "/"@ + name + "/pulls/"@ + clean),
                                token: c.probe_jwt,
                                want: WantV::Field { key: "state"@, value: "merged"@ },
                                cap_ms: 60_000,
                            }),
                            lost_in("the clean change never merged, so nothing can conflict with it"@, rs[5]),
                            link(
                                rs, 6,
                                posting(
                                    api_at(c, "/v1/repos/"@ + c.probe_user + "/"@ + name + "/pulls"@), c.probe_jwt,
                                    Doc::Obj(seq![
                                        ("title"@, Doc::Str("slo dirty "@ + c.run_id)),
                                        ("base"@, Doc::Str(BASE_BRANCH@)),
                                        ("head"@, Doc::Str("run-"@ + c.run_id + "-dirty"@)),
                                    ]),
                                ),
                                err_of(numbered("could not open the change"@, rs[6])),
                                link(
                                    rs, 7,
                                    AskV::Wait(WaitV::Doc {
                                        url: api_at(c, "/v1/repos/"@ + c.probe_user + "/"@ + name + "/pulls/"@ + dirty),
                                        token: c.probe_jwt,
                                        want: WantV::Judged,
                                        cap_ms: 25_000,
                                    }),
                                    misjudged(dirty, "dirty"@, rs[7]), NextV::Pass,
                                ),
                            ),
                        ),
                    ),
                ),
            ),
        ),
    )
}

fn mergeability_body(c: &Run, name: &str, log: &Log) -> (n: Next)
    ensures
        n@ == mergeability_next(c@, name@, log@.rs),
{
    if log.rs.len() <= 0 {
        return Next::Ask(post(
            api(c, cat5("/v1/repos/", c.probe_user.as_str(), "/", name, "/commits").as_str()), c.probe_jwt.as_str(),
            obj4(
                "branch", txt(BASE_BRANCH), "newBranch", txt(cat3("run-", c.run_id.as_str(), "-clean").as_str()), "message",
                txt(cat2("slo clean ", c.run_id.as_str()).as_str()), "changes",
                arr1(obj2(
                    "path", txt(cat3("conflict-", c.run_id.as_str(), ".txt").as_str()), "contentBase64",
                    txt(encode64("one\n").as_str()),
                )),
            ),
        ));
    }
    if let Some(why) = failed(
        cat2("could not make ", cat3("run-", c.run_id.as_str(), "-clean").as_str()).as_str(), &log.rs[0],
    ) {
        return Next::Fail(why);
    }
    if log.rs.len() <= 1 {
        return Next::Ask(post(
            api(c, cat5("/v1/repos/", c.probe_user.as_str(), "/", name, "/commits").as_str()), c.probe_jwt.as_str(),
            obj4(
                "branch", txt(BASE_BRANCH), "newBranch", txt(cat3("run-", c.run_id.as_str(), "-dirty").as_str()), "message",
                txt(cat2("slo dirty ", c.run_id.as_str()).as_str()), "changes",
                arr1(obj2(
                    "path", txt(cat3("conflict-", c.run_id.as_str(), ".txt").as_str()), "contentBase64",
                    txt(encode64("two\n").as_str()),
                )),
            ),
        ));
    }
    if let Some(why) = failed(
        cat2("could not make ", cat3("run-", c.run_id.as_str(), "-dirty").as_str()).as_str(), &log.rs[1],
    ) {
        return Next::Fail(why);
    }
    if log.rs.len() <= 2 {
        return Next::Ask(post(
            api(c, cat5("/v1/repos/", c.probe_user.as_str(), "/", name, "/pulls").as_str()), c.probe_jwt.as_str(),
            obj3(
                "title", txt(cat2("slo clean ", c.run_id.as_str()).as_str()), "base", txt(BASE_BRANCH), "head",
                txt(cat3("run-", c.run_id.as_str(), "-clean").as_str()),
            ),
        ));
    }
    let clean = match numbered_of("could not open the change", &log.rs[2]) {
        Err(why) => {
            return Next::Fail(why);
        },
        Ok(t) => t,
    };
    if log.rs.len() <= 3 {
        return Next::Ask(Ask::Wait(Wait::Doc {
            url: api(c, cat6("/v1/repos/", c.probe_user.as_str(), "/", name, "/pulls/", clean.as_str()).as_str()),
            token: c.probe_jwt.clone(),
            want: Want::Judged,
            cap_ms: 25_000,
        }));
    }
    if let Some(why) = verdict(clean.as_str(), "clean", &log.rs[3]) {
        return Next::Fail(why);
    }
    if log.rs.len() <= 4 {
        return Next::Ask(post(
            api(
                c,
                cat7(
                    "/v1/repos/", c.probe_user.as_str(), "/", name, "/pulls/", clean.as_str(), "/merge?strategy=fast-forward",
                ).as_str(),
            ),
            c.probe_jwt.as_str(), Json::Null,
        ));
    }
    if let Some(why) = failed("could not land the clean change", &log.rs[4]) {
        return Next::Fail(why);
    }
    if log.rs.len() <= 5 {
        return Next::Ask(Ask::Wait(Wait::Doc {
            url: api(c, cat6("/v1/repos/", c.probe_user.as_str(), "/", name, "/pulls/", clean.as_str()).as_str()),
            token: c.probe_jwt.clone(),
            want: Want::Field { key: "state".to_owned(), value: "merged".to_owned() },
            cap_ms: 60_000,
        }));
    }
    if let Some(why) = lost_within("the clean change never merged, so nothing can conflict with it", &log.rs[5]) {
        return Next::Fail(why);
    }
    if log.rs.len() <= 6 {
        return Next::Ask(post(
            api(c, cat5("/v1/repos/", c.probe_user.as_str(), "/", name, "/pulls").as_str()), c.probe_jwt.as_str(),
            obj3(
                "title", txt(cat2("slo dirty ", c.run_id.as_str()).as_str()), "base", txt(BASE_BRANCH), "head",
                txt(cat3("run-", c.run_id.as_str(), "-dirty").as_str()),
            ),
        ));
    }
    let dirty = match numbered_of("could not open the change", &log.rs[6]) {
        Err(why) => {
            return Next::Fail(why);
        },
        Ok(t) => t,
    };
    if log.rs.len() <= 7 {
        return Next::Ask(Ask::Wait(Wait::Doc {
            url: api(c, cat6("/v1/repos/", c.probe_user.as_str(), "/", name, "/pulls/", dirty.as_str()).as_str()),
            token: c.probe_jwt.clone(),
            want: Want::Judged,
            cap_ms: 25_000,
        }));
    }
    end(verdict(dirty.as_str(), "dirty", &log.rs[7]))
}

pub enum Body {
    Description { name: String },
    MergeStrategies { name: String },
    Mergeability { name: String },
}

pub enum BodyV {
    Description { name: Seq<char> },
    MergeStrategies { name: Seq<char> },
    Mergeability { name: Seq<char> },
}

impl View for Body {
    type V = BodyV;

    open spec fn view(&self) -> BodyV {
        match self {
            Body::Description { name } => BodyV::Description { name: name@ },
            Body::MergeStrategies { name } => BodyV::MergeStrategies { name: name@ },
            Body::Mergeability { name } => BodyV::Mergeability { name: name@ },
        }
    }
}

/// What a body does next.
pub open spec fn body_next(c: RunV, b: BodyV, log: LogV) -> NextV {
    match b {
        BodyV::Description { name } => description_next(c, name, log.rs),
        BodyV::MergeStrategies { name } => strategies_next(c, name, 0, log.rs),
        BodyV::Mergeability { name } => mergeability_next(c, name, log.rs),
    }
}

impl Body {
    pub fn next(&self, c: &Run, log: &Log) -> (n: Next)
        ensures
            n@ == body_next(c@, self@, log@),
    {
        match self {
            Body::Description { name } => description_body(c, name.as_str(), log),
            Body::MergeStrategies { name } => merge_strategies_body(c, name.as_str(), log),
            Body::Mergeability { name } => mergeability_body(c, name.as_str(), log),
        }
    }
}

pub open spec fn description_move(s: StateV, os: Seq<OutcomeV>) -> MoveV<BodyV> {
    one_move(
        "repo.description"@, READ_MS, "no repo"@,
        (match s.repo { Some(name) => Some(BodyV::Description { name }), None => None }), os,
    )
}

/// `repo.description`.
pub fn description(s: &State, os: &Vec<Outcome>) -> (m: Move<Body>)
    ensures
        m@ == description_move(s@, outcomes(os@)),
{
    let body = match &s.repo {
        Some(name) => Some(Body::Description { name: name.clone() }),
        None => None,
    };
    one("repo.description", READ_MS, "no repo", body, os)
}

pub open spec fn merge_strategies_move(s: StateV, os: Seq<OutcomeV>) -> MoveV<BodyV> {
    one_move(
        "pr.merge.strategies"@, MERGE_MS, "no repo"@,
        (match s.repo { Some(name) => Some(BodyV::MergeStrategies { name }), None => None }), os,
    )
}

/// `pr.merge.strategies`.
pub fn merge_strategies(s: &State, os: &Vec<Outcome>) -> (m: Move<Body>)
    ensures
        m@ == merge_strategies_move(s@, outcomes(os@)),
{
    let body = match &s.repo {
        Some(name) => Some(Body::MergeStrategies { name: name.clone() }),
        None => None,
    };
    one("pr.merge.strategies", MERGE_MS, "no repo", body, os)
}

pub open spec fn mergeability_move(s: StateV, os: Seq<OutcomeV>) -> MoveV<BodyV> {
    one_move(
        "pr.mergeability"@, MERGEABILITY_MS, "no repo"@,
        (match s.repo { Some(name) => Some(BodyV::Mergeability { name }), None => None }), os,
    )
}

/// `pr.mergeability`.
pub fn mergeability(s: &State, os: &Vec<Outcome>) -> (m: Move<Body>)
    ensures
        m@ == mergeability_move(s@, outcomes(os@)),
{
    let body = match &s.repo {
        Some(name) => Some(Body::Mergeability { name: name.clone() }),
        None => None,
    };
    one("pr.mergeability", MERGEABILITY_MS, "no repo", body, os)
}

/// Each of the three ids is reported exactly once.
pub proof fn law_every_id_is_reported_once(s: StateV, os: Seq<OutcomeV>)
    ensures
        reports_exactly(|o: Seq<OutcomeV>| description_move(s, o), os, seq!["repo.description"@], 1),
        reports_exactly(|o: Seq<OutcomeV>| merge_strategies_move(s, o), os, seq!["pr.merge.strategies"@], 1),
        reports_exactly(|o: Seq<OutcomeV>| mergeability_move(s, o), os, seq!["pr.mergeability"@], 1),
    decreases os.len(),
{
    reveal_with_fuel(reports, 2);
    if os.len() > 1 {
        law_every_id_is_reported_once(s, os.drop_last());
    }
}

} // verus!
