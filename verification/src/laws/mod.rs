//! What the library is for, said of replies and documents alone.
//!
//! A body asks, is answered, and passes or fails. The laws in here say of each what it takes to pass, what
//! is asked for and of whom, and what every wait waits for, in terms of the replies that came and of what
//! the documents in them hold.

pub mod amounts;
pub mod asked;
pub mod basics;
pub mod console;
pub mod drills;
pub mod git;
pub mod lifecycle;
pub mod manners;
pub mod nodes;
pub mod pace;
pub mod refusals;
pub mod registry;
pub mod repos;
pub mod shapes;
pub mod spelling;
pub mod sweeps;
pub mod teams;
pub mod texts;
pub mod waits;
pub mod walks;
pub mod weekly;
pub mod workspaces;

use vstd::prelude::*;

use crate::json::Doc;
use crate::outside::json_of;
use crate::wait::WaitV;
use crate::want::says;
use crate::wire::{AskV, NextV, ReplyV};

verus! {

/// An answer with a status of 200 to 299.
pub open spec fn went_well(r: ReplyV) -> bool {
    r matches ReplyV::Answer { status, .. } && 200 <= status <= 299
}

/// An answer with just this status.
pub open spec fn answered(r: ReplyV, code: u16) -> bool {
    r matches ReplyV::Answer { status, .. } && status == code
}

/// An answer that says no: 401, 403 or 404.
pub open spec fn turned_away(r: ReplyV) -> bool {
    answered(r, 401) || answered(r, 403) || answered(r, 404)
}

/// The document an answer carries; null where its text is no JSON.
pub open spec fn doc_in(r: ReplyV) -> Doc {
    match r {
        ReplyV::Answer { text, .. } => match json_of(text) {
            Some(d) => d,
            None => Doc::Null,
        },
        _ => Doc::Null,
    }
}

/// What was waited for came in time.
pub open spec fn came(r: ReplyV) -> bool {
    !(r is Lost)
}

/// A command that ran and exited zero.
pub open spec fn ran_well(r: ReplyV) -> bool {
    r matches ReplyV::Ran { code, .. } && code == 0
}

/// A body that waits: the document at `url` is read with `token`, for as long as `cap_ms`, until just `p`
/// holds of it.
pub open spec fn waits_until(n: NextV, url: Seq<char>, token: Seq<char>, cap_ms: u64, p: spec_fn(Doc) -> bool) -> bool {
    n matches NextV::Ask(AskV::Wait(WaitV::Doc { url: u, token: t, want, cap_ms: cap })) && u == url && t == token && cap == cap_ms
        && forall|d: Doc| #[trigger] says(want, d) == p(d)
}

} // verus!
