//! JSON documents as the stages read and write them.
//!
//! [`Json`] is the document itself and [`Doc`] its mathematical twin: the contracts speak of
//! documents, fields and rows, never of how one is stored.

use vstd::prelude::*;

use crate::outside::{json_text, render};
use crate::text::{contains, holds, not_after, same, texts};

verus! {

/// A JSON document. A number that is no integer is kept as it was written (`Other`).
pub enum Json {
    Null,
    Bool(bool),
    Int(i128),
    Other(String),
    Str(String),
    Arr(Vec<Json>),
    Obj(Vec<(String, Json)>),
}

pub enum Doc {
    Null,
    Bool(bool),
    Int(int),
    Other(Seq<char>),
    Str(Seq<char>),
    Arr(Seq<Doc>),
    Obj(Seq<(Seq<char>, Doc)>),
}

pub open spec fn as_doc(j: Json) -> Doc
    decreases j,
{
    match j {
        Json::Null => Doc::Null,
        Json::Bool(b) => Doc::Bool(b),
        Json::Int(n) => Doc::Int(n as int),
        Json::Other(t) => Doc::Other(t@),
        Json::Str(t) => Doc::Str(t@),
        Json::Arr(v) => Doc::Arr(docs(v@)),
        Json::Obj(v) => Doc::Obj(fields(v@)),
    }
}

pub open spec fn docs(v: Seq<Json>) -> Seq<Doc>
    decreases v,
{
    if v.len() == 0 {
        Seq::empty()
    } else {
        docs(v.subrange(0, v.len() - 1)).push(as_doc(v[v.len() - 1]))
    }
}

pub open spec fn fields(v: Seq<(String, Json)>) -> Seq<(Seq<char>, Doc)>
    decreases v,
{
    if v.len() == 0 {
        Seq::empty()
    } else {
        fields(v.subrange(0, v.len() - 1)).push((v[v.len() - 1].0@, as_doc(v[v.len() - 1].1)))
    }
}

impl View for Json {
    type V = Doc;

    open spec fn view(&self) -> Doc {
        as_doc(*self)
    }
}

pub proof fn lemma_docs(v: Seq<Json>)
    ensures
        docs(v).len() == v.len(),
        forall|i: int| 0 <= i < v.len() ==> #[trigger] docs(v)[i] == v[i]@,
    decreases v.len(),
{
    if v.len() > 0 {
        lemma_docs(v.subrange(0, v.len() - 1));
    }
}

pub proof fn lemma_fields(v: Seq<(String, Json)>)
    ensures
        fields(v).len() == v.len(),
        forall|i: int| 0 <= i < v.len() ==> #[trigger] fields(v)[i] == (v[i].0@, v[i].1@),
    decreases v.len(),
{
    if v.len() > 0 {
        lemma_fields(v.subrange(0, v.len() - 1));
    }
}

// ── reading ─────────────────────────────────────────────────────────────────

/// The first field of a name.
pub open spec fn field_named(fields: Seq<(Seq<char>, Doc)>, key: Seq<char>) -> Option<Doc>
    decreases fields.len(),
{
    if fields.len() == 0 {
        None
    } else if fields[0].0 == key {
        Some(fields[0].1)
    } else {
        field_named(fields.drop_first(), key)
    }
}

/// The field `key` of a document; nothing where it has none, or is no object.
pub open spec fn member(d: Doc, key: Seq<char>) -> Option<Doc> {
    match d {
        Doc::Obj(fields) => field_named(fields, key),
        _ => None,
    }
}

/// The field `k2` of the field `k1`.
pub open spec fn member2(d: Doc, k1: Seq<char>, k2: Seq<char>) -> Option<Doc> {
    match member(d, k1) {
        Some(m) => member(m, k2),
        None => None,
    }
}

/// A document's text, where it is one.
pub open spec fn doc_str(d: Option<Doc>) -> Option<Seq<char>> {
    match d {
        Some(Doc::Str(t)) => Some(t),
        _ => None,
    }
}

/// The text of the field `key`.
pub open spec fn text_of(d: Doc, key: Seq<char>) -> Option<Seq<char>> {
    doc_str(member(d, key))
}

/// A document's integer, where it is one that an `i64` holds.
pub open spec fn doc_i64(d: Option<Doc>) -> Option<int> {
    match d {
        Some(Doc::Int(n)) => if i64::MIN <= n <= i64::MAX { Some(n) } else { None },
        _ => None,
    }
}

/// A document's integer, where it is one that a `u64` holds.
pub open spec fn doc_u64(d: Option<Doc>) -> Option<int> {
    match d {
        Some(Doc::Int(n)) => if 0 <= n <= u64::MAX { Some(n) } else { None },
        _ => None,
    }
}

/// A document's truth value, where it is one.
pub open spec fn doc_bool(d: Option<Doc>) -> Option<bool> {
    match d {
        Some(Doc::Bool(b)) => Some(b),
        _ => None,
    }
}

/// A document's rows, where it is a list.
pub open spec fn items(d: Option<Doc>) -> Option<Seq<Doc>> {
    match d {
        Some(Doc::Arr(v)) => Some(v),
        _ => None,
    }
}

/// A document's rows; none where it is no list.
pub open spec fn rows_of(d: Option<Doc>) -> Seq<Doc> {
    match items(d) {
        Some(v) => v,
        None => seq![],
    }
}

/// The first row whose field `key` is the text `value`.
pub open spec fn row_named(rows: Seq<Doc>, key: Seq<char>, value: Seq<char>) -> Option<Doc>
    decreases rows.len(),
{
    if rows.len() == 0 {
        None
    } else if text_of(rows[0], key) == Some(value) {
        Some(rows[0])
    } else {
        row_named(rows.drop_first(), key, value)
    }
}

/// A row whose field `k1` is the text `v1` and whose field `k2` is the text `v2`.
pub open spec fn row_is(row: Doc, k1: Seq<char>, v1: Seq<char>, k2: Seq<char>, v2: Seq<char>) -> bool {
    text_of(row, k1) == Some(v1) && text_of(row, k2) == Some(v2)
}

/// Some row is so.
pub open spec fn some_row(rows: Seq<Doc>, k1: Seq<char>, v1: Seq<char>, k2: Seq<char>, v2: Seq<char>) -> bool {
    exists|i: int| 0 <= i < rows.len() && #[trigger] row_is(rows[i], k1, v1, k2, v2)
}

/// Some row is the text `t`.
pub open spec fn some_text(rows: Seq<Doc>, t: Seq<char>) -> bool {
    exists|i: int| 0 <= i < rows.len() && #[trigger] doc_str(Some(rows[i])) == Some(t)
}

/// Every text that a row's field `key` holds, in order; a row without one is passed over.
pub open spec fn column(rows: Seq<Doc>, key: Seq<char>) -> Seq<Seq<char>>
    decreases rows.len(),
{
    if rows.len() == 0 {
        seq![]
    } else {
        let rest = column(rows.drop_last(), key);
        match text_of(rows.last(), key) {
            Some(t) => rest.push(t),
            None => rest,
        }
    }
}

/// Whether a document is at most `deep` lists and objects deep, has no number but integers of 64 bits,
/// and no object in it names a field twice or has its fields in another order than that of their names.
pub open spec fn is_plain(d: Doc, deep: nat) -> bool
    decreases deep,
{
    match d {
        Doc::Null | Doc::Bool(_) | Doc::Str(_) => true,
        Doc::Int(n) => i64::MIN <= n <= u64::MAX,
        Doc::Other(_) => false,
        Doc::Arr(v) => deep > 0 && forall|i: int| 0 <= i < v.len() ==> is_plain(#[trigger] v[i], (deep - 1) as nat),
        Doc::Obj(v) => deep > 0 && (forall|i: int| 0 <= i < v.len() ==> is_plain((#[trigger] v[i]).1, (deep - 1) as nat)) && (
        forall|i: int| 0 < i < v.len() ==> v[i - 1].0 != (#[trigger] v[i]).0 && not_after(v[i - 1].0, v[i].0)),
    }
}

/// The view of an optional document.
pub open spec fn opt_doc(r: Option<&Json>) -> Option<Doc> {
    match r {
        Some(j) => Some(j@),
        None => None,
    }
}

/// The view of an optional text.
pub open spec fn opt_text(r: Option<String>) -> Option<Seq<char>> {
    match r {
        Some(t) => Some(t@),
        None => None,
    }
}

impl Json {
    pub fn get(&self, key: &str) -> (r: Option<&Json>)
        ensures
            opt_doc(r) == member(self@, key@),
    {
        match self {
            Json::Obj(v) => {
                let ghost all = fields(v@);
                proof {
                    lemma_fields(v@);
                    assert(all.skip(0) =~= all);
                }
                let mut i: usize = 0;
                while i < v.len()
                    invariant
                        i <= v.len(),
                        self@ == Doc::Obj(all),
                        all.len() == v@.len(),
                        forall|k: int| 0 <= k < v@.len() ==> #[trigger] all[k] == (v@[k].0@, v@[k].1@),
                        field_named(all, key@) == field_named(all.skip(i as int), key@),
                    decreases v.len() - i,
                {
                    proof {
                        assert(all.skip(i as int).drop_first() =~= all.skip(i + 1));
                        assert(all.skip(i as int)[0] == all[i as int]);
                    }
                    if same(v[i].0.as_str(), key) {
                        return Some(&v[i].1);
                    }
                    i = i + 1;
                }
                None
            },
            _ => None,
        }
    }

    pub fn get2(&self, k1: &str, k2: &str) -> (r: Option<&Json>)
        ensures
            opt_doc(r) == member2(self@, k1@, k2@),
    {
        match self.get(k1) {
            Some(m) => m.get(k2),
            None => None,
        }
    }

    /// The document as it is sent.
    pub fn text(&self) -> (r: String)
        ensures
            r@ == json_text(self@),
    {
        render(self)
    }

    /// The text of the field `key`, where it is one.
    pub fn text_at(&self, key: &str) -> (r: Option<String>)
        ensures
            opt_text(r) == text_of(self@, key@),
    {
        str_of(self.get(key))
    }

    /// Whether the field `key` is the text `value`.
    pub fn is_at(&self, key: &str, value: &str) -> (r: bool)
        ensures
            r == (text_of(self@, key@) == Some(value@)),
    {
        match self.get(key) {
            Some(Json::Str(t)) => same(t.as_str(), value),
            _ => false,
        }
    }
}

pub fn str_of(d: Option<&Json>) -> (r: Option<String>)
    ensures
        opt_text(r) == doc_str(opt_doc(d)),
{
    match d {
        Some(Json::Str(t)) => Some(t.clone()),
        _ => None,
    }
}

pub fn i64_of(d: Option<&Json>) -> (r: Option<i64>)
    ensures
        (match r { Some(n) => Some(n as int), None => None }) == doc_i64(opt_doc(d)),
{
    match d {
        Some(Json::Int(n)) => {
            if *n >= i64::MIN as i128 && *n <= i64::MAX as i128 {
                Some(*n as i64)
            } else {
                None
            }
        },
        _ => None,
    }
}

pub fn u64_of(d: Option<&Json>) -> (r: Option<u64>)
    ensures
        (match r { Some(n) => Some(n as int), None => None }) == doc_u64(opt_doc(d)),
{
    match d {
        Some(Json::Int(n)) => {
            if *n >= 0 && *n <= u64::MAX as i128 {
                Some(*n as u64)
            } else {
                None
            }
        },
        _ => None,
    }
}

pub fn bool_of(d: Option<&Json>) -> (r: Option<bool>)
    ensures
        r == doc_bool(opt_doc(d)),
{
    match d {
        Some(Json::Bool(b)) => Some(*b),
        _ => None,
    }
}

/// The rows of a document, where it is a list.
pub fn array_of(d: Option<&Json>) -> (r: Option<&Vec<Json>>)
    ensures
        (match r { Some(v) => Some(docs(v@)), None => None }) == items(opt_doc(d)),
{
    match d {
        Some(Json::Arr(v)) => Some(v),
        _ => None,
    }
}

/// The first row whose field `key` is the text `value`.
pub fn find_row<'a>(rows: &'a Vec<Json>, key: &str, value: &str) -> (r: Option<&'a Json>)
    ensures
        opt_doc(r) == row_named(docs(rows@), key@, value@),
{
    let ghost all = docs(rows@);
    proof {
        lemma_docs(rows@);
        assert(all.skip(0) =~= all);
    }
    let mut i: usize = 0;
    while i < rows.len()
        invariant
            i <= rows@.len(),
            all == docs(rows@),
            all.len() == rows@.len(),
            forall|k: int| 0 <= k < rows@.len() ==> #[trigger] all[k] == rows@[k]@,
            row_named(all, key@, value@) == row_named(all.skip(i as int), key@, value@),
        decreases rows.len() - i,
    {
        proof {
            assert(all.skip(i as int).drop_first() =~= all.skip(i + 1));
            assert(all.skip(i as int)[0] == all[i as int]);
        }
        if rows[i].is_at(key, value) {
            return Some(&rows[i]);
        }
        i = i + 1;
    }
    None
}

/// Whether some row's field `k1` is the text `v1` and its field `k2` the text `v2`.
pub fn any_row(rows: &Vec<Json>, k1: &str, v1: &str, k2: &str, v2: &str) -> (r: bool)
    ensures
        r == some_row(docs(rows@), k1@, v1@, k2@, v2@),
{
    let ghost all = docs(rows@);
    proof {
        lemma_docs(rows@);
    }
    let mut i: usize = 0;
    while i < rows.len()
        invariant
            i <= rows@.len(),
            all == docs(rows@),
            all.len() == rows@.len(),
            forall|k: int| 0 <= k < rows@.len() ==> #[trigger] all[k] == rows@[k]@,
            forall|k: int| 0 <= k < i ==> !#[trigger] row_is(all[k], k1@, v1@, k2@, v2@),
        decreases rows.len() - i,
    {
        proof {
            assert(all[i as int] == rows@[i as int]@);
        }
        if rows[i].is_at(k1, v1) && rows[i].is_at(k2, v2) {
            proof {
                assert(row_is(all[i as int], k1@, v1@, k2@, v2@));
            }
            return true;
        }
        i = i + 1;
    }
    false
}

/// Whether some row is the text `t`.
pub fn any_text(rows: &Vec<Json>, t: &str) -> (r: bool)
    ensures
        r == some_text(docs(rows@), t@),
{
    let ghost all = docs(rows@);
    proof {
        lemma_docs(rows@);
    }
    let mut i: usize = 0;
    while i < rows.len()
        invariant
            i <= rows@.len(),
            all == docs(rows@),
            all.len() == rows@.len(),
            forall|k: int| 0 <= k < rows@.len() ==> #[trigger] all[k] == rows@[k]@,
            forall|k: int| 0 <= k < i ==> #[trigger] doc_str(Some(all[k])) != Some(t@),
        decreases rows.len() - i,
    {
        proof {
            assert(all[i as int] == rows@[i as int]@);
        }
        match &rows[i] {
            Json::Str(x) => {
                if same(x.as_str(), t) {
                    proof {
                        assert(doc_str(Some(all[i as int])) == Some(t@));
                    }
                    return true;
                }
            },
            _ => {},
        }
        i = i + 1;
    }
    false
}

/// The same, in a document that may be no list.
pub fn row_in<'a>(d: Option<&'a Json>, key: &str, value: &str) -> (r: Option<&'a Json>)
    ensures
        opt_doc(r) == row_named(rows_of(opt_doc(d)), key@, value@),
{
    match array_of(d) {
        Some(v) => find_row(v, key, value),
        None => None,
    }
}

/// Every text that a row's field `key` holds.
pub fn column_of(rows: &Vec<Json>, key: &str) -> (r: Vec<String>)
    ensures
        texts(r@) == column(docs(rows@), key@),
{
    let ghost all = docs(rows@);
    let mut r: Vec<String> = Vec::new();
    proof {
        lemma_docs(rows@);
        assert(all.take(0) =~= Seq::<Doc>::empty());
        assert(texts(r@) =~= Seq::<Seq<char>>::empty());
    }
    let mut i: usize = 0;
    while i < rows.len()
        invariant
            i <= rows@.len(),
            all.len() == rows@.len(),
            forall|k: int| 0 <= k < rows@.len() ==> #[trigger] all[k] == rows@[k]@,
            texts(r@) == column(all.take(i as int), key@),
        decreases rows.len() - i,
    {
        proof {
            assert(all.take(i + 1).drop_last() =~= all.take(i as int));
            assert(all.take(i + 1).last() == all[i as int]);
        }
        let ghost before = r@;
        match rows[i].text_at(key) {
            Some(t) => {
                r.push(t);
                proof {
                    assert(texts(r@) =~= texts(before).push(t@));
                }
            },
            None => {},
        }
        i = i + 1;
    }
    proof {
        assert(all.take(all.len() as int) =~= all);
    }
    r
}

// ── writing ─────────────────────────────────────────────────────────────────

pub fn txt(t: &str) -> (r: Json)
    ensures
        r@ == Doc::Str(t@),
{
    Json::Str(t.to_owned())
}

pub fn int_doc(n: i64) -> (r: Json)
    ensures
        r@ == Doc::Int(n as int),
{
    Json::Int(n as i128)
}

pub fn truth(b: bool) -> (r: Json)
    ensures
        r@ == Doc::Bool(b),
{
    Json::Bool(b)
}

pub fn arr0() -> (r: Json)
    ensures
        r@ == Doc::Arr(seq![]),
{
    let v: Vec<Json> = Vec::new();
    proof {
        assert(docs(v@) =~= seq![]);
    }
    Json::Arr(v)
}

pub fn arr1(a: Json) -> (r: Json)
    ensures
        r@ == Doc::Arr(seq![a@]),
{
    let mut v: Vec<Json> = Vec::new();
    v.push(a);
    proof {
        lemma_docs(v@);
        assert(docs(v@) =~= seq![a@]);
    }
    Json::Arr(v)
}

pub fn arr2(a: Json, b: Json) -> (r: Json)
    ensures
        r@ == Doc::Arr(seq![a@, b@]),
{
    let mut v: Vec<Json> = Vec::new();
    v.push(a);
    v.push(b);
    proof {
        lemma_docs(v@);
        assert(docs(v@) =~= seq![a@, b@]);
    }
    Json::Arr(v)
}

pub fn obj0() -> (r: Json)
    ensures
        r@ == Doc::Obj(seq![]),
{
    let v: Vec<(String, Json)> = Vec::new();
    proof {
        assert(fields(v@) =~= seq![]);
    }
    Json::Obj(v)
}

pub fn obj1(k1: &str, v1: Json) -> (r: Json)
    ensures
        r@ == Doc::Obj(seq![(k1@, v1@)]),
{
    let mut v: Vec<(String, Json)> = Vec::new();
    v.push((k1.to_owned(), v1));
    proof {
        lemma_fields(v@);
        assert(fields(v@) =~= seq![(k1@, v1@)]);
    }
    Json::Obj(v)
}

/// An object with one more field behind those it has.
pub fn with(o: Json, key: &str, value: Json) -> (r: Json)
    requires
        o@ is Obj,
    ensures
        r@ == Doc::Obj(o@->Obj_0.push((key@, value@))),
{
    match o {
        Json::Obj(v) => {
            let mut w = v;
            w.push((key.to_owned(), value));
            proof {
                lemma_fields(v@);
                lemma_fields(w@);
                assert(fields(w@) =~= fields(v@).push((key@, value@)));
            }
            Json::Obj(w)
        },
        other => other,
    }
}

pub fn obj2(k1: &str, v1: Json, k2: &str, v2: Json) -> (r: Json)
    ensures
        r@ == Doc::Obj(seq![(k1@, v1@), (k2@, v2@)]),
{
    let r = with(obj1(k1, v1), k2, v2);
    proof {
        assert(r@->Obj_0 =~= seq![(k1@, v1@), (k2@, v2@)]);
    }
    r
}

pub fn obj3(k1: &str, v1: Json, k2: &str, v2: Json, k3: &str, v3: Json) -> (r: Json)
    ensures
        r@ == Doc::Obj(seq![(k1@, v1@), (k2@, v2@), (k3@, v3@)]),
{
    let r = with(obj2(k1, v1, k2, v2), k3, v3);
    proof {
        assert(r@->Obj_0 =~= seq![(k1@, v1@), (k2@, v2@), (k3@, v3@)]);
    }
    r
}

pub fn obj4(k1: &str, v1: Json, k2: &str, v2: Json, k3: &str, v3: Json, k4: &str, v4: Json) -> (r: Json)
    ensures
        r@ == Doc::Obj(seq![(k1@, v1@), (k2@, v2@), (k3@, v3@), (k4@, v4@)]),
{
    let r = with(obj3(k1, v1, k2, v2, k3, v3), k4, v4);
    proof {
        assert(r@->Obj_0 =~= seq![(k1@, v1@), (k2@, v2@), (k3@, v3@), (k4@, v4@)]);
    }
    r
}

pub fn obj5(k1: &str, v1: Json, k2: &str, v2: Json, k3: &str, v3: Json, k4: &str, v4: Json, k5: &str, v5: Json) -> (r: Json)
    ensures
        r@ == Doc::Obj(seq![(k1@, v1@), (k2@, v2@), (k3@, v3@), (k4@, v4@), (k5@, v5@)]),
{
    let r = with(obj4(k1, v1, k2, v2, k3, v3, k4, v4), k5, v5);
    proof {
        assert(r@->Obj_0 =~= seq![(k1@, v1@), (k2@, v2@), (k3@, v3@), (k4@, v4@), (k5@, v5@)]);
    }
    r
}

pub fn obj6(k1: &str, v1: Json, k2: &str, v2: Json, k3: &str, v3: Json, k4: &str, v4: Json, k5: &str, v5: Json, k6: &str, v6: Json) -> (r: Json)
    ensures
        r@ == Doc::Obj(seq![(k1@, v1@), (k2@, v2@), (k3@, v3@), (k4@, v4@), (k5@, v5@), (k6@, v6@)]),
{
    let r = with(obj5(k1, v1, k2, v2, k3, v3, k4, v4, k5, v5), k6, v6);
    proof {
        assert(r@->Obj_0 =~= seq![(k1@, v1@), (k2@, v2@), (k3@, v3@), (k4@, v4@), (k5@, v5@), (k6@, v6@)]);
    }
    r
}

/// The text of a field, empty where there is none.
pub open spec fn text_or_empty(d: Doc, key: Seq<char>) -> Seq<char> {
    match text_of(d, key) {
        Some(t) => t,
        None => seq![],
    }
}

pub fn text_or(d: &Json, key: &str) -> (r: String)
    ensures
        r@ == text_or_empty(d@, key@),
{
    match d.text_at(key) {
        Some(t) => t,
        None => String::new(),
    }
}

/// Whether some text in a document, however deep, holds `t`. The names of fields are no texts of it.
pub open spec fn tells(d: Doc, t: Seq<char>) -> bool
    decreases d,
{
    match d {
        Doc::Str(s) => holds(s, t),
        Doc::Arr(v) => some_tells(v, t),
        Doc::Obj(v) => some_field_tells(v, t),
        _ => false,
    }
}

/// The same, of some document of a list.
pub open spec fn some_tells(v: Seq<Doc>, t: Seq<char>) -> bool
    decreases v,
{
    v.len() > 0 && (some_tells(v.subrange(0, v.len() - 1), t) || tells(v[v.len() - 1], t))
}

/// The same, of some field's value.
pub open spec fn some_field_tells(v: Seq<(Seq<char>, Doc)>, t: Seq<char>) -> bool
    decreases v,
{
    v.len() > 0 && (some_field_tells(v.subrange(0, v.len() - 1), t) || tells(v[v.len() - 1].1, t))
}

pub proof fn lemma_some_tells(v: Seq<Doc>, t: Seq<char>)
    ensures
        some_tells(v, t) <==> exists|i: int| 0 <= i < v.len() && tells(#[trigger] v[i], t),
    decreases v.len(),
{
    if v.len() > 0 {
        let before = v.subrange(0, v.len() - 1);
        lemma_some_tells(before, t);
        assert forall|i: int| 0 <= i < before.len() implies v[i] == #[trigger] before[i] by {}
        assert forall|i: int| 0 <= i < v.len() && tells(#[trigger] v[i], t) implies some_tells(v, t) by {
            if i < before.len() {
                assert(tells(before[i], t));
            }
        }
    }
}

pub proof fn lemma_some_field_tells(v: Seq<(Seq<char>, Doc)>, t: Seq<char>)
    ensures
        some_field_tells(v, t) <==> exists|i: int| 0 <= i < v.len() && tells((#[trigger] v[i]).1, t),
    decreases v.len(),
{
    if v.len() > 0 {
        let before = v.subrange(0, v.len() - 1);
        lemma_some_field_tells(before, t);
        assert forall|i: int| 0 <= i < before.len() implies v[i] == #[trigger] before[i] by {}
        assert forall|i: int| 0 <= i < v.len() && tells((#[trigger] v[i]).1, t) implies some_field_tells(v, t) by {
            if i < before.len() {
                assert(tells(before[i].1, t));
            }
        }
    }
}

pub fn telling(j: &Json, t: &str) -> (r: bool)
    ensures
        r == tells(j@, t@),
    decreases j,
{
    match j {
        Json::Str(s) => contains(s.as_str(), t),
        Json::Arr(v) => {
            proof {
                lemma_docs(v@);
                lemma_some_tells(docs(v@), t@);
            }
            let mut i: usize = 0;
            while i < v.len()
                invariant
                    i <= v@.len(),
                    *j == Json::Arr(*v),
                    docs(v@).len() == v@.len(),
                    forall|k: int| 0 <= k < v@.len() ==> #[trigger] docs(v@)[k] == v@[k]@,
                    forall|k: int| 0 <= k < i ==> !tells(#[trigger] docs(v@)[k], t@),
                    some_tells(docs(v@), t@) <==> exists|k: int| 0 <= k < v@.len() && tells(#[trigger] docs(v@)[k], t@),
                decreases v.len() - i,
            {
                proof {
                    assert(decreases_to!(*j => j->Arr_0));
                    assert(decreases_to!(*v => v@));
                    assert(decreases_to!(v@ => v@[i as int]));
                    assert(docs(v@)[i as int] == v@[i as int]@);
                }
                if telling(&v[i], t) {
                    proof {
                        assert(tells(docs(v@)[i as int], t@));
                    }
                    return true;
                }
                i = i + 1;
            }
            false
        },
        Json::Obj(v) => {
            proof {
                lemma_fields(v@);
                lemma_some_field_tells(fields(v@), t@);
            }
            let mut i: usize = 0;
            while i < v.len()
                invariant
                    i <= v@.len(),
                    *j == Json::Obj(*v),
                    fields(v@).len() == v@.len(),
                    forall|k: int| 0 <= k < v@.len() ==> #[trigger] fields(v@)[k] == (v@[k].0@, v@[k].1@),
                    forall|k: int| 0 <= k < i ==> !tells((#[trigger] fields(v@)[k]).1, t@),
                    some_field_tells(fields(v@), t@) <==> exists|k: int|
                        0 <= k < v@.len() && tells((#[trigger] fields(v@)[k]).1, t@),
                decreases v.len() - i,
            {
                proof {
                    assert(decreases_to!(*j => j->Obj_0));
                    assert(decreases_to!(*v => v@));
                    assert(decreases_to!(v@ => v@[i as int]));
                    assert(decreases_to!(v@[i as int] => v@[i as int].1));
                    assert(fields(v@)[i as int] == (v@[i as int].0@, v@[i as int].1@));
                }
                if telling(&v[i].1, t) {
                    proof {
                        assert(tells(fields(v@)[i as int].1, t@));
                    }
                    return true;
                }
                i = i + 1;
            }
            false
        },
        _ => false,
    }
}

/// Whether two documents are one.
pub fn same_json(a: &Json, b: &Json) -> (r: bool)
    ensures
        r == (a@ == b@),
    decreases a,
{
    match (a, b) {
        (Json::Null, Json::Null) => true,
        (Json::Bool(x), Json::Bool(y)) => *x == *y,
        (Json::Int(x), Json::Int(y)) => *x == *y,
        (Json::Other(x), Json::Other(y)) => same(x.as_str(), y.as_str()),
        (Json::Str(x), Json::Str(y)) => same(x.as_str(), y.as_str()),
        (Json::Arr(x), Json::Arr(y)) => {
            proof {
                lemma_docs(x@);
                lemma_docs(y@);
            }
            if x.len() != y.len() {
                return false;
            }
            let mut i: usize = 0;
            while i < x.len()
                invariant
                    i <= x@.len(),
                    x@.len() == y@.len(),
                    *a == Json::Arr(*x),
                    *b == Json::Arr(*y),
                    docs(x@).len() == x@.len(),
                    docs(y@).len() == y@.len(),
                    forall|k: int| 0 <= k < x@.len() ==> #[trigger] docs(x@)[k] == x@[k]@,
                    forall|k: int| 0 <= k < y@.len() ==> #[trigger] docs(y@)[k] == y@[k]@,
                    forall|k: int| 0 <= k < i ==> #[trigger] docs(x@)[k] == docs(y@)[k],
                decreases x.len() - i,
            {
                proof {
                    assert(decreases_to!(*a => a->Arr_0));
                    assert(decreases_to!(*x => x@));
                    assert(decreases_to!(x@ => x@[i as int]));
                    assert(docs(x@)[i as int] == x@[i as int]@ && docs(y@)[i as int] == y@[i as int]@);
                }
                if !same_json(&x[i], &y[i]) {
                    return false;
                }
                i = i + 1;
            }
            proof {
                assert(docs(x@) =~= docs(y@));
            }
            true
        },
        (Json::Obj(x), Json::Obj(y)) => {
            proof {
                lemma_fields(x@);
                lemma_fields(y@);
            }
            if x.len() != y.len() {
                return false;
            }
            let mut i: usize = 0;
            while i < x.len()
                invariant
                    i <= x@.len(),
                    x@.len() == y@.len(),
                    *a == Json::Obj(*x),
                    *b == Json::Obj(*y),
                    fields(x@).len() == x@.len(),
                    fields(y@).len() == y@.len(),
                    forall|k: int| 0 <= k < x@.len() ==> #[trigger] fields(x@)[k] == (x@[k].0@, x@[k].1@),
                    forall|k: int| 0 <= k < y@.len() ==> #[trigger] fields(y@)[k] == (y@[k].0@, y@[k].1@),
                    forall|k: int| 0 <= k < i ==> #[trigger] fields(x@)[k] == fields(y@)[k],
                decreases x.len() - i,
            {
                proof {
                    assert(decreases_to!(*a => a->Obj_0));
                    assert(decreases_to!(*x => x@));
                    assert(decreases_to!(x@ => x@[i as int]));
                    assert(decreases_to!(x@[i as int] => x@[i as int].1));
                    assert(fields(x@)[i as int] == (x@[i as int].0@, x@[i as int].1@));
                    assert(fields(y@)[i as int] == (y@[i as int].0@, y@[i as int].1@));
                }
                if !same(x[i].0.as_str(), y[i].0.as_str()) || !same_json(&x[i].1, &y[i].1) {
                    return false;
                }
                i = i + 1;
            }
            proof {
                assert(fields(x@) =~= fields(y@));
            }
            true
        },
        _ => false,
    }
}

} // verus!
