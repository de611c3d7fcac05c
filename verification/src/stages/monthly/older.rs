//! How a feed and a fleet are read that are older than the ones the drills now run against: a feed's row
//! names a repo by its owner and its name, and a node has a label for each role it can have.

use vstd::prelude::*;

use crate::json::{Doc, Json, array_of, docs, lemma_docs, text_of};
use crate::stages::monthly::nodes::{label, label_of};
use crate::stages::monthly::outages::feed_rows;
use crate::text::same;

verus! {

pub const ROLES: [&'static str; 2] = ["kloudlite.io/session", "kloudlite.io/env"];

pub open spec fn creates(row: Doc, repo: Seq<char>) -> bool {
    text_of(row, "kind"@) == Some("repo_created"@) && text_of(row, "repo"@) == Some(repo)
}

pub open spec fn some_creates(rows: Seq<Doc>, repo: Seq<char>) -> bool {
    exists|i: int| 0 <= i < rows.len() && creates(#[trigger] rows[i], repo)
}

/// Whether a feed tells of a repo's creation; `repo` is its owner and its name.
pub open spec fn created_in(feed: Doc, repo: Seq<char>) -> bool {
    match feed_rows(feed) {
        Some(rows) => some_creates(rows, repo),
        None => false,
    }
}

fn creates_in(rows: &Vec<Json>, repo: &str) -> (r: bool)
    ensures
        r == some_creates(docs(rows@), repo@),
{
    proof {
        lemma_docs(rows@);
    }
    let mut i: usize = 0;
    while i < rows.len()
        invariant
            i <= rows@.len(),
            docs(rows@).len() == rows@.len(),
            forall|k: int| 0 <= k < rows@.len() ==> #[trigger] docs(rows@)[k] == rows@[k]@,
            forall|k: int| 0 <= k < i ==> !creates(#[trigger] docs(rows@)[k], repo@),
        decreases rows.len() - i,
    {
        proof {
            assert(docs(rows@)[i as int] == rows@[i as int]@);
        }
        let row = &rows[i];
        if row.is_at("kind", "repo_created") && row.is_at("repo", repo) {
            return true;
        }
        i = i + 1;
    }
    false
}

pub fn created(feed: &Json, repo: &str) -> (r: bool)
    ensures
        r == created_in(feed@, repo@),
{
    match array_of(feed.get("events")) {
        Some(rows) => creates_in(rows, repo),
        None => match array_of(Some(feed)) {
            Some(rows) => creates_in(rows, repo),
            None => false,
        },
    }
}

/// A node an agent runs on: one that has some role.
pub open spec fn has_role(d: Doc) -> bool {
    label(d, ROLES[0]@) == Some("true"@) || label(d, ROLES[1]@) == Some("true"@)
}

fn is_labelled(d: &Json, key: &str) -> (r: bool)
    ensures
        r == (label(d@, key@) == Some("true"@)),
{
    match label_of(d, key) {
        Some(t) => same(t.as_str(), "true"),
        None => false,
    }
}

pub fn is_role_node(d: &Json) -> (r: bool)
    ensures
        r == has_role(d@),
{
    is_labelled(d, ROLES[0]) || is_labelled(d, ROLES[1])
}

/// A row that tells of anything but a creation counts for nothing.
pub proof fn law_only_a_creation_counts(feed: Doc, repo: Seq<char>)
    requires
        feed_rows(feed) is Some,
        forall|i: int| 0 <= i < feed_rows(feed)->0.len() ==> text_of(#[trigger] (feed_rows(feed)->0)[i], "kind"@) != Some(
            "repo_created"@,
        ),
    ensures
        !created_in(feed, repo),
{
}

} // verus!
