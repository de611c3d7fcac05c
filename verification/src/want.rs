//! What a document is waited to say.

use vstd::prelude::*;

use crate::json::{
    Doc, Json, array_of, bool_of, doc_bool, doc_str, doc_u64, docs, items, lemma_docs, member, member2, row_in, row_named,
    rows_of, str_of, text_of, u64_of,
};
use crate::stages::git::{oid_in, oid_of};
use crate::stages::monthly::outages::{created, created_in};
use crate::stages::pr::{merge_event, merge_in};
use crate::stages::registry::{has, held};
use crate::text::same;

verus! {

/// What a document is waited to say.
pub enum Want {
    /// The field `key` holds the text `value`.
    Field { key: String, value: String },
    /// The row `name` of the document's `trees` is ready.
    TreeReady { name: String },
    /// No row of the document's `trees` is named `name`.
    TreeGone { name: String },
    /// The row `id` of the list is in the phase `ready`.
    RowReady { id: String },
    /// The branch is at the commit `oid`.
    Branch { branch: String, oid: String },
    /// The activity feed has the merge of a repo.
    Merged { repo: String },
    /// The list in the field `field` holds the text `value`.
    Holds { field: String, value: String },
    /// The mergeability of a change has been worked out.
    Judged,
    /// The first row's field `key` holds the text `value`.
    FirstRow { key: String, value: String },
    /// The list is empty.
    Empty,
    /// Another node holds the last cut.
    Replicated,
    /// It is in the state, and on another node.
    Moved { state: String, node: String },
    /// The field `key` holds a text other than `value`.
    OtherThan { key: String, value: String },
    /// The grace is set to `value`.
    Grace { value: u64 },
    /// The activity feed tells of a repo's creation.
    Created { owner: String, name: String },
    /// The list in `rows` is not empty.
    Rows,
}

pub enum WantV {
    Field { key: Seq<char>, value: Seq<char> },
    TreeReady { name: Seq<char> },
    TreeGone { name: Seq<char> },
    RowReady { id: Seq<char> },
    Branch { branch: Seq<char>, oid: Seq<char> },
    Merged { repo: Seq<char> },
    Holds { field: Seq<char>, value: Seq<char> },
    Judged,
    FirstRow { key: Seq<char>, value: Seq<char> },
    Empty,
    Replicated,
    Moved { state: Seq<char>, node: Seq<char> },
    OtherThan { key: Seq<char>, value: Seq<char> },
    Grace { value: u64 },
    Created { owner: Seq<char>, name: Seq<char> },
    Rows,
}

impl View for Want {
    type V = WantV;

    open spec fn view(&self) -> WantV {
        match self {
            Want::Field { key, value } => WantV::Field { key: key@, value: value@ },
            Want::TreeReady { name } => WantV::TreeReady { name: name@ },
            Want::TreeGone { name } => WantV::TreeGone { name: name@ },
            Want::RowReady { id } => WantV::RowReady { id: id@ },
            Want::Branch { branch, oid } => WantV::Branch { branch: branch@, oid: oid@ },
            Want::Merged { repo } => WantV::Merged { repo: repo@ },
            Want::Holds { field, value } => WantV::Holds { field: field@, value: value@ },
            Want::Judged => WantV::Judged,
            Want::FirstRow { key, value } => WantV::FirstRow { key: key@, value: value@ },
            Want::Empty => WantV::Empty,
            Want::Replicated => WantV::Replicated,
            Want::Moved { state, node } => WantV::Moved { state: state@, node: node@ },
            Want::OtherThan { key, value } => WantV::OtherThan { key: key@, value: value@ },
            Want::Grace { value } => WantV::Grace { value: *value },
            Want::Created { owner, name } => WantV::Created { owner: owner@, name: name@ },
            Want::Rows => WantV::Rows,
        }
    }
}

/// Some row is named `name` and ready.
pub open spec fn some_ready(rows: Seq<Doc>, name: Seq<char>) -> bool {
    exists|i: int| 0 <= i < rows.len() && #[trigger] ready_row(rows[i], name)
}

pub open spec fn ready_row(row: Doc, name: Seq<char>) -> bool {
    text_of(row, "name"@) == Some(name) && doc_bool(member(row, "ready"@)) == Some(true)
}

fn any_ready(rows: &Vec<Json>, name: &str) -> (r: bool)
    ensures
        r == some_ready(docs(rows@), name@),
{
    let ghost all = docs(rows@);
    proof {
        lemma_docs(rows@);
    }
    let mut i: usize = 0;
    while i < rows.len()
        invariant
            i <= rows@.len(),
            all == docs(rows@),
            all.len() == rows@.len(),
            forall|k: int| 0 <= k < rows@.len() ==> #[trigger] all[k] == rows@[k]@,
            forall|k: int| 0 <= k < i ==> !#[trigger] ready_row(all[k], name@),
        decreases rows.len() - i,
    {
        if rows[i].is_at("name", name) {
            match bool_of(rows[i].get("ready")) {
                Some(true) => {
                    proof {
                        assert(ready_row(all[i as int], name@));
                    }
                    return true;
                },
                _ => {},
            }
        }
        proof {
            assert(all[i as int] == rows@[i as int]@);
        }
        i = i + 1;
    }
    false
}

/// Some row has the id `id` and the phase `ready`.
pub open spec fn row_is_ready(row: Doc, id: Seq<char>) -> bool {
    text_of(row, "id"@) == Some(id) && text_of(row, "phase"@) == Some("ready"@)
}

pub open spec fn some_phase_ready(rows: Seq<Doc>, id: Seq<char>) -> bool {
    exists|i: int| 0 <= i < rows.len() && #[trigger] row_is_ready(rows[i], id)
}

fn any_phase_ready(rows: &Vec<Json>, id: &str) -> (r: bool)
    ensures
        r == some_phase_ready(docs(rows@), id@),
{
    let ghost all = docs(rows@);
    proof {
        lemma_docs(rows@);
    }
    let mut i: usize = 0;
    while i < rows.len()
        invariant
            i <= rows@.len(),
            all == docs(rows@),
            all.len() == rows@.len(),
            forall|k: int| 0 <= k < rows@.len() ==> #[trigger] all[k] == rows@[k]@,
            forall|k: int| 0 <= k < i ==> !#[trigger] row_is_ready(all[k], id@),
        decreases rows.len() - i,
    {
        if rows[i].is_at("id", id) && rows[i].is_at("phase", "ready") {
            proof {
                assert(row_is_ready(all[i as int], id@));
            }
            return true;
        }
        proof {
            assert(all[i as int] == rows@[i as int]@);
        }
        i = i + 1;
    }
    false
}

/// The state in a change's own mergeability; `unknown` where it is not told.
pub open spec fn judged(d: Doc) -> Seq<char> {
    match doc_str(member2(d, "mergeability"@, "state"@)) {
        Some(t) => t,
        None => "unknown"@,
    }
}

pub fn judgement(j: &Json) -> (r: String)
    ensures
        r@ == judged(j@),
{
    match str_of(j.get2("mergeability", "state")) {
        Some(t) => t,
        None => "unknown".to_owned(),
    }
}

/// The first row's field `key` holds the text `value`.
pub open spec fn first_is(rows: Seq<Doc>, key: Seq<char>, value: Seq<char>) -> bool {
    rows.len() > 0 && text_of(rows[0], key) == Some(value)
}

fn first_has(rows: &Vec<Json>, key: &str, value: &str) -> (r: bool)
    ensures
        r == first_is(docs(rows@), key@, value@),
{
    proof {
        lemma_docs(rows@);
    }
    rows.len() > 0 && rows[0].is_at(key, value)
}

/// Whether a field holds a text, and another one than `value`.
pub open spec fn other_text(d: Doc, key: Seq<char>, value: Seq<char>) -> bool {
    match text_of(d, key) {
        Some(t) => t != value,
        None => false,
    }
}

pub fn is_other(j: &Json, key: &str, value: &str) -> (r: bool)
    ensures
        r == other_text(j@, key@, value@),
{
    match j.text_at(key) {
        Some(t) => !same(t.as_str(), value),
        None => false,
    }
}

/// Whether a document says what is wanted.
pub open spec fn says(w: WantV, d: Doc) -> bool {
    match w {
        WantV::Field { key, value } => text_of(d, key) == Some(value),
        WantV::TreeReady { name } => some_ready(rows_of(member(d, "trees"@)), name),
        WantV::TreeGone { name } => row_named(rows_of(member(d, "trees"@)), "name"@, name) is None,
        WantV::RowReady { id } => some_phase_ready(rows_of(Some(d)), id),
        WantV::Branch { branch, oid } => oid_in(d, branch) == Some(oid),
        WantV::Merged { repo } => merge_in(d, repo),
        WantV::Holds { field, value } => held(d, field, value),
        WantV::Judged => judged(d) != "unknown"@,
        WantV::FirstRow { key, value } => first_is(rows_of(Some(d)), key, value),
        WantV::Empty => items(Some(d)) == Some(Seq::<Doc>::empty()),
        WantV::Replicated => doc_bool(member2(d, "replicated"@, "ready"@)) == Some(true),
        WantV::Moved { state, node } => text_of(d, "state"@) == Some(state) && other_text(d, "placement"@, node),
        WantV::OtherThan { key, value } => other_text(d, key, value),
        WantV::Grace { value } => doc_u64(member(d, "uploadGraceSecs"@)) == Some(value as int),
        WantV::Created { owner, name } => created_in(d, owner, name),
        WantV::Rows => rows_of(member(d, "rows"@)).len() > 0,
    }
}

impl Want {
    pub fn met(&self, j: &Json) -> (r: bool)
        ensures
            r == says(self@, j@),
    {
        match self {
            Want::Field { key, value } => j.is_at(key.as_str(), value.as_str()),
            Want::TreeReady { name } => match array_of(j.get("trees")) {
                Some(rows) => any_ready(rows, name.as_str()),
                None => false,
            },
            Want::TreeGone { name } => row_in(j.get("trees"), "name", name.as_str()).is_none(),
            Want::RowReady { id } => match array_of(Some(j)) {
                Some(rows) => any_phase_ready(rows, id.as_str()),
                None => false,
            },
            Want::Branch { branch, oid } => match oid_of(j, branch.as_str()) {
                Some(t) => same(t.as_str(), oid.as_str()),
                None => false,
            },
            Want::Merged { repo } => merge_event(j, repo.as_str()),
            Want::Holds { field, value } => has(j, field.as_str(), value.as_str()),
            Want::Judged => !same(judgement(j).as_str(), "unknown"),
            Want::FirstRow { key, value } => match array_of(Some(j)) {
                Some(rows) => first_has(rows, key.as_str(), value.as_str()),
                None => false,
            },
            Want::Empty => match array_of(Some(j)) {
                Some(rows) => {
                    proof {
                        lemma_docs(rows@);
                        assert(docs(rows@).len() == 0 ==> docs(rows@) =~= Seq::<Doc>::empty());
                    }
                    rows.len() == 0
                },
                None => false,
            },
            Want::Replicated => match bool_of(j.get2("replicated", "ready")) {
                Some(b) => b,
                None => false,
            },
            Want::Moved { state, node } => j.is_at("state", state.as_str()) && is_other(j, "placement", node.as_str()),
            Want::OtherThan { key, value } => is_other(j, key.as_str(), value.as_str()),
            Want::Grace { value } => match u64_of(j.get("uploadGraceSecs")) {
                Some(n) => n == *value,
                None => false,
            },
            Want::Created { owner, name } => created(j, owner.as_str(), name.as_str()),
            Want::Rows => match array_of(j.get("rows")) {
                Some(rows) => {
                    proof {
                        lemma_docs(rows@);
                    }
                    rows.len() > 0
                },
                None => false,
            },
        }
    }
}

} // verus!
