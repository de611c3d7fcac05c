//! The verbs of a person's day that no other stage tries: handles and keys, change requests, teams
//! and the admin console.

pub mod console;
pub mod identity;
pub mod pulls;
pub mod surface;
pub mod teams;

use vstd::prelude::*;

use crate::json::{Doc, Json, arr0, arr1, int_doc, obj0, obj6, txt};
use crate::text::{cat2, chars_of};

verus! {

/// Each ceiling is at or above its target: a slow answer is a breach with a number, never a step
/// that was cut off.
pub const QUICK_MS: u64 = 20_000;

pub const READ_MS: u64 = 15_000;

pub const KEY_BODY_MS: u64 = 60_000;

pub const MERGE_MS: u64 = 300_000;

pub const MERGEABILITY_MS: u64 = 60_000;

pub const TEAM_ENV_MS: u64 = 240_000;

pub const ATTACH_PAIR_MS: u64 = 120_000;

pub const ADMIN_ENV_MS: u64 = 180_000;

pub const ADMIN_DELETE_MS: u64 = 180_000;

pub const DECIDE_MS: u64 = 90_000;

pub const SSHCONFIG_MS: u64 = 45_000;

/// Every admin write carries a note; an empty one is refused.
pub const NOTE: &'static str = "slo probe";

pub const QUOTA_GB: i64 = 1;

/// The CLI's own name for the subcommand.
pub const KL_SSH_CONFIG: &'static str = "ssh-config";

/// All a removed key gets: the fleet keeps no key it has accepted before.
pub const REVOCATION_MS: u64 = 10_000;

/// The merge strategies, in the order the web offers them.
pub const STRATEGIES: [&'static str; 4] = ["merge", "squash", "rebase", "fast-forward"];

/// How long one strategy's tree has to appear once its change is merged.
pub const MERGE_LAND_MS: u64 = 30_000;

/// How long a service has to answer once a replica of it is ready.
pub const SVC_ANSWERS_MS: u64 = 30_000;

/// How one character of an id stands in a path segment.
pub open spec fn escaped(ch: char) -> Seq<char> {
    if ch == '/' {
        "%2F"@
    } else if ch == '+' {
        "%2B"@
    } else if ch == '%' {
        "%25"@
    } else {
        seq![ch]
    }
}

/// An id as one path segment, character by character.
pub open spec fn segment(id: Seq<char>) -> Seq<char>
    decreases id.len(),
{
    if id.len() == 0 { seq![] } else { segment(id.drop_last()) + escaped(id.last()) }
}

/// One path segment, with the characters that would split it escaped: a key's id is its
/// fingerprint, and base64 has slashes in it.
pub fn path_seg(id: &str) -> (r: String)
    ensures
        r@ == segment(id@),
{
    let v = chars_of(id);
    let mut r = String::new();
    let mut i: usize = 0;
    proof {
        assert(id@.take(0) =~= Seq::<char>::empty());
    }
    while i < v.len()
        invariant
            v@ == id@,
            i <= v@.len(),
            r@ == segment(id@.take(i as int)),
        decreases v.len() - i,
    {
        proof {
            assert(id@.take(i + 1).drop_last() =~= id@.take(i as int));
            assert(id@.take(i + 1).last() == v@[i as int]);
        }
        let ch = v[i];
        if ch == '/' {
            r = r.concat("%2F");
        } else if ch == '+' {
            r = r.concat("%2B");
        } else if ch == '%' {
            r = r.concat("%25");
        } else {
            let ghost before = r@;
            r.push(ch);
            proof {
                assert(r@ =~= before + seq![ch]);
            }
        }
        i = i + 1;
    }
    proof {
        assert(id@.take(id@.len() as int) =~= id@);
    }
    r
}

/// A segment is one segment: nothing that would split a path, or be read as a space, is left in it.
pub proof fn law_a_segment_never_splits(id: Seq<char>)
    ensures
        forall|i: int| 0 <= i < segment(id).len() ==> #[trigger] segment(id)[i] != '/' && segment(id)[i] != '+',
    decreases id.len(),
{
    if id.len() > 0 {
        law_a_segment_never_splits(id.drop_last());
        reveal_strlit("%2F");
        reveal_strlit("%2B");
        reveal_strlit("%25");
        let head = segment(id.drop_last());
        let tail = escaped(id.last());
        assert forall|i: int| 0 <= i < segment(id).len() implies #[trigger] segment(id)[i] != '/' && segment(id)[i] != '+' by {
            if i < head.len() {
                assert(segment(id)[i] == head[i]);
            } else {
                assert(segment(id)[i] == tail[i - head.len()]);
            }
        }
    }
}

/// Two ids of one segment are one id: the escapes lose nothing.
pub proof fn law_a_segment_is_one_id(a: Seq<char>, b: Seq<char>)
    requires
        segment(a) == segment(b),
    ensures
        a == b,
    decreases a.len() + b.len(),
{
    reveal_strlit("%2F");
    reveal_strlit("%2B");
    reveal_strlit("%25");
    let sa = segment(a);
    if a.len() == 0 || b.len() == 0 {
        if a.len() > 0 {
            assert(escaped(a.last()).len() > 0);
            assert(sa.len() > 0);
        }
        if b.len() > 0 {
            assert(escaped(b.last()).len() > 0);
        }
        assert(a =~= b);
    } else {
        lemma_no_escape_inside(a);
        lemma_no_escape_inside(b);
        let ea = escaped(a.last());
        let eb = escaped(b.last());
        let n = sa.len();
        assert(sa.last() == ea.last());
        assert(sa.last() == eb.last());
        if ea.len() == 3 {
            assert(sa[n - 3] == '%');
        }
        if eb.len() == 3 {
            assert(sa[n - 3] == '%');
        }
        if ea.len() != eb.len() {
            // One ends in an escape, the other in a bare character: a bare run never holds a `%`
            // two places before its end.
            if ea.len() == 3 {
                lemma_percent_begins_an_escape(b, n - 3);
            } else {
                lemma_percent_begins_an_escape(a, n - 3);
            }
        }
        assert(ea.len() == eb.len());
        let k = n - ea.len();
        assert(ea =~= sa.skip(k));
        assert(eb =~= sa.skip(k));
        assert(a.last() == b.last());
        assert(segment(a.drop_last()) =~= sa.take(k));
        assert(segment(b.drop_last()) =~= sa.take(k));
        law_a_segment_is_one_id(a.drop_last(), b.drop_last());
        assert(a =~= a.drop_last().push(a.last()));
        assert(b =~= b.drop_last().push(b.last()));
    }
}

/// Nothing but an escape holds a `%`.
proof fn lemma_no_escape_inside(id: Seq<char>)
    ensures
        id.len() > 0 && escaped(id.last()).len() == 1 ==> escaped(id.last())[0] != '%',
{
    reveal_strlit("%2F");
    reveal_strlit("%2B");
    reveal_strlit("%25");
}

/// Where a segment holds a `%`, two more characters of the same escape follow it.
proof fn lemma_percent_begins_an_escape(id: Seq<char>, at: int)
    requires
        0 <= at < segment(id).len(),
        segment(id)[at] == '%',
    ensures
        at + 3 <= segment(id).len(),
        at + 3 == segment(id).len() ==> id.len() > 0 && escaped(id.last()).len() == 3,
    decreases id.len(),
{
    reveal_strlit("%2F");
    reveal_strlit("%2B");
    reveal_strlit("%25");
    if id.len() > 0 {
        let head = segment(id.drop_last());
        let tail = escaped(id.last());
        if at < head.len() {
            assert(segment(id)[at] == head[at]);
            lemma_percent_begins_an_escape(id.drop_last(), at);
        } else {
            assert(segment(id)[at] == tail[at - head.len()]);
        }
    }
}

/// A redis, as an environment is asked for with one.
pub open spec fn redis_service() -> Doc {
    Doc::Obj(seq![
        ("name"@, Doc::Str("redis"@)),
        ("image"@, Doc::Str("redis:7-alpine"@)),
        ("command"@, Doc::Arr(seq![])),
        ("env"@, Doc::Obj(seq![])),
        ("mounts"@, Doc::Arr(seq![])),
        ("ports"@, Doc::Arr(seq![Doc::Int(6379)])),
    ])
}

pub fn redis() -> (r: Json)
    ensures
        r@ == redis_service(),
{
    obj6(
        "name", txt("redis"), "image", txt("redis:7-alpine"), "command", arr0(), "env", obj0(), "mounts", arr0(),
        "ports", arr1(int_doc(6379)),
    )
}

/// The namespace of an environment, whoever owns it.
pub open spec fn env_ns(id: Seq<char>) -> Seq<char> {
    "env-"@ + id
}

pub fn env_namespace(id: &str) -> (r: String)
    ensures
        r@ == env_ns(id@),
{
    cat2("env-", id)
}

} // verus!
