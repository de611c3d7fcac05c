//! Cluster objects, read as documents.

use vstd::prelude::*;

use crate::json::{Doc, Json, doc_str, docs, lemma_docs, member2, str_of};
use crate::text::texts;

verus! {

/// The name of a cluster object, or what its name was to be generated from.
pub open spec fn name_of(d: Doc) -> Seq<char> {
    match doc_str(member2(d, "metadata"@, "name"@)) {
        Some(t) => t,
        None => match doc_str(member2(d, "metadata"@, "generateName"@)) {
            Some(t) => t,
            None => seq![],
        },
    }
}

pub fn object_name(d: &Json) -> (r: String)
    ensures
        r@ == name_of(d@),
{
    match str_of(d.get2("metadata", "name")) {
        Some(t) => t,
        None => match str_of(d.get2("metadata", "generateName")) {
            Some(t) => t,
            None => String::new(),
        },
    }
}

/// The names of a list of cluster objects.
pub open spec fn names_of(rows: Seq<Doc>) -> Seq<Seq<char>> {
    Seq::new(rows.len(), |i: int| name_of(rows[i]))
}

pub fn object_names(rows: &Vec<Json>) -> (r: Vec<String>)
    ensures
        texts(r@) == names_of(docs(rows@)),
{
    proof {
        lemma_docs(rows@);
    }
    let mut r: Vec<String> = Vec::new();
    let mut i: usize = 0;
    while i < rows.len()
        invariant
            i <= rows@.len(),
            r@.len() == i,
            docs(rows@).len() == rows@.len(),
            forall|k: int| 0 <= k < rows@.len() ==> #[trigger] docs(rows@)[k] == rows@[k]@,
            forall|k: int| 0 <= k < i ==> #[trigger] r@[k]@ == name_of(rows@[k]@),
        decreases rows.len() - i,
    {
        r.push(object_name(&rows[i]));
        i = i + 1;
    }
    proof {
        assert(texts(r@) =~= names_of(docs(rows@)));
    }
    r
}

} // verus!
