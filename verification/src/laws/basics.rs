//! Of documents, replies and the links of a body.

use vstd::prelude::*;

use crate::cluster::name_of;
use crate::json::{
    Doc, column, doc_bool, doc_i64, doc_str, doc_u64, field_named, items, member, member2, row_named, rows_of, some_field_tells, some_row,
    some_tells, some_text, tells, text_of, text_or_empty,
};
use crate::laws::{answered, came, doc_in, ran_well, went_well};
use crate::reply::{
    all_in_turn, call_error, call_failed, calls_in_turn, doc_of, exited, id_in, in_turn, is_success, lost_in, lost_of, made, made_full,
    not_answered, numbered, object_of, ran_of, raw_of, ready_in, said_of, tool_error, tool_error_in, unanswered, unanswered_bare, unread,
};
use crate::run::{RunV, admin_at, api_at};
use crate::text::{dec_int, holds, no_slash};
use crate::wire::{
    AskV, LogV, NextV, PayloadV, ReplyV, Verb, and_on, closing, deleting, finally, getting, patching, posting, posting_nothing, timed, undoing,
    undoing2, unless_passed,
};

verus! {

// ── documents ───────────────────────────────────────────────────────────────

/// A field is the first of its name, and there is none in what is no object.
pub proof fn law_a_field_is_the_first_of_its_name(d: Doc, key: Seq<char>, v: Doc)
    ensures
        member(d, key) == Some(v) <==> (d matches Doc::Obj(f) && exists|i: int|
            0 <= i < f.len() && #[trigger] f[i] == (key, v) && forall|j: int| 0 <= j < i ==> (#[trigger] f[j]).0 != key),
{
    if let Doc::Obj(f) = d {
        lemma_first_field(f, key, v);
    }
}

proof fn lemma_first_field(f: Seq<(Seq<char>, Doc)>, key: Seq<char>, v: Doc)
    ensures
        field_named(f, key) == Some(v) <==> exists|i: int|
            0 <= i < f.len() && #[trigger] f[i] == (key, v) && forall|j: int| 0 <= j < i ==> (#[trigger] f[j]).0 != key,
    decreases f.len(),
{
    if f.len() > 0 {
        let t = f.drop_first();
        lemma_first_field(t, key, v);
        if f[0].0 == key {
            if field_named(f, key) == Some(v) {
                assert(f[0] == (key, v));
            }
            assert forall|i: int| 0 <= i < f.len() && #[trigger] f[i] == (key, v) && (forall|j: int|
                0 <= j < i ==> (#[trigger] f[j]).0 != key) implies f[0].1 == v by {
                if i > 0 {
                    assert(f[0].0 != key);
                }
            }
        } else {
            if field_named(t, key) == Some(v) {
                let i = choose|i: int| 0 <= i < t.len() && #[trigger] t[i] == (key, v) && forall|j: int|
                    0 <= j < i ==> (#[trigger] t[j]).0 != key;
                assert(f[i + 1] == (key, v));
                assert forall|j: int| 0 <= j < i + 1 implies (#[trigger] f[j]).0 != key by {
                    if j > 0 {
                        assert(t[j - 1].0 != key);
                    }
                }
            }
            assert forall|i: int| 0 <= i < f.len() && #[trigger] f[i] == (key, v) && (forall|j: int|
                0 <= j < i ==> (#[trigger] f[j]).0 != key) implies field_named(t, key) == Some(v) by {
                assert(t[i - 1] == (key, v));
                assert forall|j: int| 0 <= j < i - 1 implies (#[trigger] t[j]).0 != key by {
                    assert(f[j + 1].0 != key);
                }
            }
        }
    }
}

/// A value reads as what it is and as nothing else.
pub proof fn law_a_value_reads_as_what_it_is(d: Doc, t: Seq<char>, n: int, b: bool, v: Seq<Doc>)
    ensures
        doc_str(Some(d)) == Some(t) <==> d == Doc::Str(t),
        doc_bool(Some(d)) == Some(b) <==> d == Doc::Bool(b),
        doc_i64(Some(d)) == Some(n) <==> d == Doc::Int(n) && -0x8000_0000_0000_0000 <= n <= 0x7fff_ffff_ffff_ffff,
        doc_u64(Some(d)) == Some(n) <==> d == Doc::Int(n) && 0 <= n <= 0xffff_ffff_ffff_ffff,
        items(Some(d)) == Some(v) <==> d == Doc::Arr(v),
        rows_of(Some(Doc::Arr(v))) == v,
        !(d is Arr) ==> rows_of(Some(d)).len() == 0,
        doc_str(None) is None && doc_bool(None) is None && doc_i64(None) is None && doc_u64(None) is None && items(None) is None,
        rows_of(None).len() == 0,
{
}

/// A text field is a field that holds a text; one of a field is a field of it.
pub proof fn law_a_text_field_holds_a_text(d: Doc, key: Seq<char>, under: Seq<char>, t: Seq<char>)
    ensures
        text_of(d, key) == Some(t) <==> member(d, key) == Some(Doc::Str(t)),
        text_or_empty(d, key) == t <==> text_of(d, key) == Some(t) || (text_of(d, key) is None && t.len() == 0),
        member2(d, key, under) == (if member(d, key) is Some { member(member(d, key)->0, under) } else { None }),
{
    if t.len() == 0 {
        assert(t =~= seq![]);
    }
}

/// A row that is found is the first with that text, and one is found where there is one.
pub proof fn law_a_row_is_the_first_of_its_name(rows: Seq<Doc>, key: Seq<char>, value: Seq<char>)
    ensures
        row_named(rows, key, value) matches Some(row) ==> exists|i: int|
            0 <= i < rows.len() && #[trigger] rows[i] == row && text_of(row, key) == Some(value) && forall|j: int|
                0 <= j < i ==> text_of(#[trigger] rows[j], key) != Some(value),
        row_named(rows, key, value) is None ==> forall|i: int| 0 <= i < rows.len() ==> text_of(#[trigger] rows[i], key) != Some(value),
    decreases rows.len(),
{
    if rows.len() > 0 {
        let t = rows.drop_first();
        law_a_row_is_the_first_of_its_name(t, key, value);
        if text_of(rows[0], key) != Some(value) {
            if let Some(row) = row_named(t, key, value) {
                let i = choose|i: int| 0 <= i < t.len() && #[trigger] t[i] == row && text_of(row, key) == Some(value) && forall|j: int|
                    0 <= j < i ==> text_of(#[trigger] t[j], key) != Some(value);
                assert(rows[i + 1] == row);
                assert forall|j: int| 0 <= j < i + 1 implies text_of(#[trigger] rows[j], key) != Some(value) by {
                    if j > 0 {
                        assert(text_of(t[j - 1], key) != Some(value));
                    }
                }
            } else {
                assert forall|i: int| 0 <= i < rows.len() implies text_of(#[trigger] rows[i], key) != Some(value) by {
                    if i > 0 {
                        assert(text_of(t[i - 1], key) != Some(value));
                    }
                }
            }
        } else {
            assert(rows[0] == row_named(rows, key, value)->0);
        }
    }
}

/// A column has the texts of its field, each as often as it is there and in order, and no others.
pub proof fn law_a_column_has_the_texts_of_its_field(rows: Seq<Doc>, last: Doc, key: Seq<char>, t: Seq<char>)
    ensures
        column(rows, key).contains(t) <==> exists|i: int| 0 <= i < rows.len() && text_of(#[trigger] rows[i], key) == Some(t),
        text_of(last, key) == Some(t) ==> column(rows.push(last), key) == column(rows, key).push(t),
        text_of(last, key) is None ==> column(rows.push(last), key) == column(rows, key),
        column(rows, key).len() <= rows.len(),
    decreases rows.len(),
{
    assert(rows.push(last).drop_last() =~= rows);
    if rows.len() > 0 {
        let f = rows.drop_last();
        law_a_column_has_the_texts_of_its_field(f, last, key, t);
        let c = column(f, key);
        match text_of(rows.last(), key) {
            Some(u) => {
                assert(column(rows, key) == c.push(u));
                if c.contains(t) {
                    let i = c.index_of(t);
                    assert(c.push(u)[i] == t);
                }
                if u == t {
                    assert(c.push(u)[c.len() as int] == t);
                    assert(text_of(rows[rows.len() - 1], key) == Some(t));
                }
            },
            None => {},
        }
        if exists|i: int| 0 <= i < f.len() && text_of(#[trigger] f[i], key) == Some(t) {
            let i = choose|i: int| 0 <= i < f.len() && text_of(#[trigger] f[i], key) == Some(t);
            assert(rows[i] == f[i]);
        }
        assert forall|i: int| 0 <= i < rows.len() && text_of(#[trigger] rows[i], key) == Some(t) implies column(rows, key).contains(t) by {
            if i < rows.len() - 1 {
                assert(f[i] == rows[i]);
            }
        }
    }
}

/// Some row is so exactly where there is one with both texts; some row is a text where it is in the list.
pub proof fn law_some_row_is_one_of_them(rows: Seq<Doc>, k1: Seq<char>, v1: Seq<char>, k2: Seq<char>, v2: Seq<char>)
    ensures
        some_row(rows, k1, v1, k2, v2) <==> exists|i: int|
            0 <= i < rows.len() && text_of(#[trigger] rows[i], k1) == Some(v1) && text_of(rows[i], k2) == Some(v2),
        some_text(rows, v1) <==> exists|i: int| 0 <= i < rows.len() && #[trigger] rows[i] == Doc::Str(v1),
{
    if exists|i: int| 0 <= i < rows.len() && text_of(#[trigger] rows[i], k1) == Some(v1) && text_of(rows[i], k2) == Some(v2) {
        let i = choose|i: int| 0 <= i < rows.len() && text_of(#[trigger] rows[i], k1) == Some(v1) && text_of(rows[i], k2) == Some(v2);
        assert(crate::json::row_is(rows[i], k1, v1, k2, v2));
    }
    if exists|i: int| 0 <= i < rows.len() && #[trigger] rows[i] == Doc::Str(v1) {
        let i = choose|i: int| 0 <= i < rows.len() && #[trigger] rows[i] == Doc::Str(v1);
        assert(doc_str(Some(rows[i])) == Some(v1));
    }
}

/// A document tells a text that stands in one of its texts, however deep, and nothing else.
pub proof fn law_a_document_tells_what_its_texts_hold(s: Seq<char>, v: Seq<Doc>, f: Seq<(Seq<char>, Doc)>, n: int, b: bool, t: Seq<char>)
    ensures
        tells(Doc::Str(s), t) <==> holds(s, t),
        tells(Doc::Arr(v), t) <==> exists|i: int| 0 <= i < v.len() && tells(#[trigger] v[i], t),
        tells(Doc::Obj(f), t) <==> exists|i: int| 0 <= i < f.len() && tells((#[trigger] f[i]).1, t),
        !tells(Doc::Null, t) && !tells(Doc::Int(n), t) && !tells(Doc::Bool(b), t),
{
    lemma_some_tells(v, t);
    lemma_some_field_tells(f, t);
}

proof fn lemma_some_tells(v: Seq<Doc>, t: Seq<char>)
    ensures
        some_tells(v, t) <==> exists|i: int| 0 <= i < v.len() && tells(#[trigger] v[i], t),
    decreases v.len(),
{
    if v.len() > 0 {
        let u = v.subrange(0, v.len() - 1);
        lemma_some_tells(u, t);
        if some_tells(u, t) {
            let i = choose|i: int| 0 <= i < u.len() && tells(#[trigger] u[i], t);
            assert(v[i] == u[i]);
        }
        assert forall|i: int| 0 <= i < v.len() && tells(#[trigger] v[i], t) implies some_tells(v, t) by {
            if i < v.len() - 1 {
                assert(u[i] == v[i]);
            }
        }
    }
}

proof fn lemma_some_field_tells(v: Seq<(Seq<char>, Doc)>, t: Seq<char>)
    ensures
        some_field_tells(v, t) <==> exists|i: int| 0 <= i < v.len() && tells((#[trigger] v[i]).1, t),
    decreases v.len(),
{
    if v.len() > 0 {
        let u = v.subrange(0, v.len() - 1);
        lemma_some_field_tells(u, t);
        if some_field_tells(u, t) {
            let i = choose|i: int| 0 <= i < u.len() && tells((#[trigger] u[i]).1, t);
            assert(v[i] == u[i]);
        }
        assert forall|i: int| 0 <= i < v.len() && tells((#[trigger] v[i]).1, t) implies some_field_tells(v, t) by {
            if i < v.len() - 1 {
                assert(u[i] == v[i]);
            }
        }
    }
}

/// A cluster object goes by the name in its metadata, and by what its name is made from only without one.
pub proof fn law_an_object_goes_by_its_name(d: Doc, t: Seq<char>)
    ensures
        member2(d, "metadata"@, "name"@) == Some(Doc::Str(t)) ==> name_of(d) == t,
        member2(d, "metadata"@, "name"@) is None && member2(d, "metadata"@, "generateName"@) == Some(Doc::Str(t)) ==> name_of(d) == t,
{
}

// ── replies ─────────────────────────────────────────────────────────────────

/// A call did what it was for exactly where it was answered with a status of 200 to 299; its document is
/// the one it was answered with.
pub proof fn law_only_a_2xx_is_a_success(r: ReplyV, context: Seq<char>, status: u16)
    ensures
        is_success(status) <==> 200 <= status <= 299,
        doc_of(r) is Ok <==> went_well(r),
        doc_of(r) matches Ok(d) ==> d == doc_in(r),
        object_of(r) is Ok <==> went_well(r),
        object_of(r) matches Ok(d) ==> d == doc_in(r),
        call_error(r) is None <==> went_well(r),
        call_failed(context, r) is None <==> went_well(r),
        unread(context, r) is None <==> went_well(r),
        raw_of(r) matches Ok((s, text)) ==> r == (ReplyV::Answer { status: s, text }),
        raw_of(r) is Ok <==> r is Answer,
{
}

/// What was made is the text in the field of an answer that went well, and nothing else; where it has to
/// hold something, an empty one is none.
pub proof fn law_what_was_made_is_in_the_answer(context: Seq<char>, key: Seq<char>, missing: Seq<char>, r: ReplyV, t: Seq<char>)
    ensures
        made(context, key, missing, r) == Result::<Seq<char>, Seq<char>>::Ok(t) <==> went_well(r) && text_of(doc_in(r), key) == Some(t),
        made_full(context, key, missing, r) == Result::<Seq<char>, Seq<char>>::Ok(t) <==> went_well(r) && text_of(doc_in(r), key) == Some(
            t,
        ) && t.len() > 0,
        id_in(r) == Some(t) <==> went_well(r) && text_of(doc_in(r), "id"@) == Some(t),
        numbered(context, r) is Ok <==> went_well(r) && doc_i64(member(doc_in(r), "number"@)) is Some,
        numbered(context, r) matches Ok(n) ==> n == dec_int(doc_i64(member(doc_in(r), "number"@))->0),
{
}

/// A thing that was made is ready only once what it was waited for came.
pub proof fn law_a_thing_is_ready_once_it_came(rs: Seq<ReplyV>, t: Seq<char>)
    ensures
        ready_in(rs) == Some(t) <==> rs.len() > 1 && came(rs[1]) && went_well(rs[0]) && text_of(doc_in(rs[0]), "id"@) == Some(t),
{
}

/// A wait that was lost is a failure, in its own words or in a context, and nothing else is.
pub proof fn law_only_a_lost_wait_fails(context: Seq<char>, r: ReplyV)
    ensures
        lost_of(r) is None <==> came(r),
        lost_in(context, r) is None <==> came(r),
        r matches ReplyV::Lost(why) ==> lost_of(r) == Some(why) && lost_in(context, r) == Some(context + ": "@ + why),
{
}

/// A command says what it printed where it ran, and did well where it exited zero; a program or a file
/// says what it printed or holds, and fails otherwise.
pub proof fn law_a_command_does_well_at_zero(what: Seq<char>, context: Seq<char>, r: ReplyV, t: Seq<char>)
    ensures
        ran_of(r) is Ok <==> r is Ran,
        ran_of(r) matches Ok((code, out, err)) ==> r == (ReplyV::Ran { code, out, err }),
        exited(what, r) is Ok <==> ran_well(r),
        exited(what, r) matches Ok(o) ==> r matches ReplyV::Ran { out, .. } && out == o,
        said_of(r) == Result::<Seq<char>, Seq<char>>::Ok(t) <==> r == ReplyV::Said(t),
        tool_error(r) is None <==> r is Said,
        tool_error_in(context, r) is None <==> r is Said,
{
}

/// An answer is one of those that were allowed exactly where its status is among them.
pub proof fn law_an_answer_is_allowed_by_its_status(before: Seq<char>, after: Seq<char>, allowed: Seq<u16>, r: ReplyV)
    ensures
        unanswered(before, allowed, after, r) is None <==> (r matches ReplyV::Answer { status, .. } && allowed.contains(status)),
        unanswered_bare(before, allowed, r) is None <==> (r matches ReplyV::Answer { status, .. } && allowed.contains(status)),
        not_answered(before, allowed, r) is None <==> (r matches ReplyV::Answer { status, .. } && allowed.contains(status)),
{
}

// ── asks ────────────────────────────────────────────────────────────────────

/// A call is made with its own verb at its own url, carries the token it was given as a bearer token, none
/// where that is empty, and the document it was given, where it has one.
pub proof fn law_a_call_carries_what_it_was_given(url: Seq<char>, token: Seq<char>, d: Doc)
    requires
        token.len() > 0,
    ensures
        getting(url, token) == (AskV::Call {
            verb: Verb::Get, url, auth: "Bearer "@ + token, accept: seq![], load: PayloadV::Empty, bound_ms: 0,
        }),
        deleting(url, token) == (AskV::Call {
            verb: Verb::Delete, url, auth: "Bearer "@ + token, accept: seq![], load: PayloadV::Empty, bound_ms: 0,
        }),
        posting_nothing(url, token) == (AskV::Call {
            verb: Verb::Post, url, auth: "Bearer "@ + token, accept: seq![], load: PayloadV::Empty, bound_ms: 0,
        }),
        posting(url, token, d) == (AskV::Call {
            verb: Verb::Post, url, auth: "Bearer "@ + token, accept: seq![], load: PayloadV::Doc(d), bound_ms: 0,
        }),
        patching(url, token, d) == (AskV::Call {
            verb: Verb::Patch, url, auth: "Bearer "@ + token, accept: seq![], load: PayloadV::Doc(d), bound_ms: 0,
        }),
        getting(url, seq![]) == (AskV::Call {
            verb: Verb::Get, url, auth: seq![], accept: seq![], load: PayloadV::Empty, bound_ms: 0,
        }),
{
}

/// A path stands below its own process's url, and there is one slash between them however many the url
/// ends in.
pub proof fn law_a_path_stands_below_its_process(c: RunV, path: Seq<char>)
    ensures
        api_at(c, path) == no_slash(c.api_url) + path,
        admin_at(c, path) == no_slash(c.admin_url) + path,
        no_slash(c.api_url).len() > 0 ==> no_slash(c.api_url).last() != '/',
        c.api_url.len() > 0 && c.api_url.last() != '/' ==> no_slash(c.api_url) == c.api_url,
        no_slash(c.api_url + seq!['/']) == no_slash(c.api_url),
{
    lemma_no_slash_ends(c.api_url);
    assert((c.api_url + seq!['/']).drop_last() =~= c.api_url);
}

proof fn lemma_no_slash_ends(s: Seq<char>)
    ensures
        no_slash(s).len() > 0 ==> no_slash(s).last() != '/',
    decreases s.len(),
{
    if s.len() > 0 && s.last() == '/' {
        lemma_no_slash_ends(s.drop_last());
    }
}

// ── links ───────────────────────────────────────────────────────────────────

/// A body that owes something passes only once it passed itself, was not cut off, what it owed was asked
/// for and came back well.
pub proof fn law_passing_takes_the_compensation_too(
    log: LogV, cap_ms: u64, body: NextV, undo: AskV, bad: Option<Seq<char>>, second: AskV, second_bad: Option<Seq<char>>,
)
    ensures
        undoing(log, cap_ms, body, undo, bad) is Pass <==> !log.cut && body is Pass && log.us.len() > 0 && bad is None,
        undoing2(log, cap_ms, body, undo, bad, second, second_bad) is Pass <==> !log.cut && body is Pass && log.us.len() > 1 && bad is None
            && second_bad is None,
        closing(log, body, undo, bad) is Pass <==> body is Pass && log.us.len() > 0 && bad is None,
        finally(log, body, undo) is Pass <==> body is Pass && log.us.len() > 0,
        unless_passed(log, body, undo) is Pass <==> body is Pass,
        timed(log, cap_ms, body) is Pass <==> !log.cut && body is Pass,
        and_on(body, NextV::Pass) is Pass <==> body is Pass,
{
}

/// A body that fails fails in its own words, once what it owed was asked for.
pub proof fn law_a_failure_is_told_in_its_own_words(
    log: LogV, cap_ms: u64, why: Seq<char>, undo: AskV, bad: Option<Seq<char>>,
)
    ensures
        !log.cut && log.us.len() > 0 ==> undoing(log, cap_ms, NextV::Fail(why), undo, bad) == NextV::Fail(why),
        log.us.len() > 0 ==> closing(log, NextV::Fail(why), undo, bad) == NextV::Fail(why),
        log.us.len() > 0 ==> finally(log, NextV::Fail(why), undo) == NextV::Fail(why),
        log.us.len() > 0 ==> unless_passed(log, NextV::Fail(why), undo) == NextV::Fail(why),
        log.us.len() == 0 ==> {
            &&& closing(log, NextV::Fail(why), undo, bad) == NextV::Undo(undo)
            &&& finally(log, NextV::Fail(why), undo) == NextV::Undo(undo)
            &&& unless_passed(log, NextV::Fail(why), undo) == NextV::Undo(undo)
        },
{
}

/// Asks in turn pass only once each was answered, and well where it matters; each is asked for only once
/// those before it were.
pub proof fn law_asks_in_turn_are_all_made(asks: Seq<(AskV, Seq<char>)>, rs: Seq<ReplyV>, k: nat)
    ensures
        calls_in_turn(asks, rs, k) is Pass <==> forall|i: int| k <= i < asks.len() ==> i < rs.len() && went_well(#[trigger] rs[i]),
        in_turn(asks, rs, k) is Pass <==> forall|i: int| k <= i < asks.len() ==> i < rs.len() && (#[trigger] rs[i]) is Said,
        k <= rs.len() < asks.len() && (forall|i: int| k <= i < rs.len() ==> went_well(#[trigger] rs[i])) ==> calls_in_turn(asks, rs, k)
            == NextV::Ask(asks[rs.len() as int].0),
        k <= rs.len() < asks.len() && (forall|i: int| k <= i < rs.len() ==> (#[trigger] rs[i]) is Said) ==> in_turn(asks, rs, k)
            == NextV::Ask(asks[rs.len() as int].0),
        !(calls_in_turn(asks, rs, k) is Undo) && !(in_turn(asks, rs, k) is Undo),
    decreases asks.len() - k,
{
    if k < asks.len() {
        law_asks_in_turn_are_all_made(asks, rs, k + 1);
        assert(rs[k as int] == rs[k as int]);
    }
}

/// Asks that are made whatever each comes to are all made, in order.
pub proof fn law_asks_are_made_whatever_comes(asks: Seq<AskV>, rs: Seq<ReplyV>)
    ensures
        all_in_turn(asks, rs) is Pass <==> rs.len() >= asks.len(),
        rs.len() < asks.len() ==> all_in_turn(asks, rs) == NextV::Ask(asks[rs.len() as int]),
{
}

} // verus!
