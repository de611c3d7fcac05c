//! Text as the stages read and write it.
//!
//! A `&str` is looked at through its characters (`s@`), so every function here is exact on any
//! text, ASCII or not. The spec functions speak of `Seq<char>`.

use vstd::prelude::*;

verus! {

// ── trusted: what std says of two functions vstd leaves open ────────────────

/// `String::push` appends one character to the end.
pub assume_specification[ String::push ](s: &mut String, c: char)
    ensures
        final(s)@ == old(s)@.push(c),
;

/// `str`'s `==`: two texts are equal when they hold the same characters.
pub assume_specification[ <str as PartialEq>::eq ](a: &str, b: &str) -> (r: bool)
    ensures
        r == (a@ == b@),
;

// ── characters ──────────────────────────────────────────────────────────────

/// Unicode's White_Space property, which is what std's trimming and splitting go by.
pub open spec fn is_white(c: char) -> bool {
    ||| '\u{9}' <= c <= '\u{d}'
    ||| c == ' '
    ||| c == '\u{85}'
    ||| c == '\u{a0}'
    ||| c == '\u{1680}'
    ||| '\u{2000}' <= c <= '\u{200a}'
    ||| c == '\u{2028}'
    ||| c == '\u{2029}'
    ||| c == '\u{202f}'
    ||| c == '\u{205f}'
    ||| c == '\u{3000}'
}

pub fn white(c: char) -> (r: bool)
    ensures
        r == is_white(c),
{
    ('\u{9}' <= c && c <= '\u{d}') || c == ' ' || c == '\u{85}' || c == '\u{a0}' || c == '\u{1680}'
        || ('\u{2000}' <= c && c <= '\u{200a}') || c == '\u{2028}' || c == '\u{2029}' || c == '\u{202f}'
        || c == '\u{205f}' || c == '\u{3000}'
}

/// The value of a decimal digit.
pub open spec fn digit_value(c: char) -> Option<nat> {
    if '0' <= c <= '9' {
        Some((c as int - '0' as int) as nat)
    } else {
        None
    }
}

pub open spec fn digit_char(d: nat) -> char {
    if d == 0 { '0' }
    else if d == 1 { '1' }
    else if d == 2 { '2' }
    else if d == 3 { '3' }
    else if d == 4 { '4' }
    else if d == 5 { '5' }
    else if d == 6 { '6' }
    else if d == 7 { '7' }
    else if d == 8 { '8' }
    else { '9' }
}

pub fn digit_of(d: u64) -> (c: char)
    requires
        d < 10,
    ensures
        c == digit_char(d as nat),
{
    if d == 0 { '0' }
    else if d == 1 { '1' }
    else if d == 2 { '2' }
    else if d == 3 { '3' }
    else if d == 4 { '4' }
    else if d == 5 { '5' }
    else if d == 6 { '6' }
    else if d == 7 { '7' }
    else if d == 8 { '8' }
    else { '9' }
}

pub fn value_of(c: char) -> (r: Option<u64>)
    ensures
        (match r { Some(d) => Some(d as nat), None => None }) == digit_value(c),
        r matches Some(d) ==> d < 10,
{
    if '0' <= c && c <= '9' {
        Some((c as u32 - '0' as u32) as u64)
    } else {
        None
    }
}

// ── pieces ──────────────────────────────────────────────────────────────────

/// The characters of `s`, in order.
pub fn chars_of(s: &str) -> (v: Vec<char>)
    ensures
        v@ == s@,
{
    let mut v: Vec<char> = Vec::new();
    for c in it: s.chars()
        invariant
            it.seq() == s@,
            v@ == s@.take(it.index() as int),
    {
        proof {
            assert(s@.take(it.index() + 1) =~= s@.take(it.index() as int).push(s@[it.index() as int]));
        }
        v.push(c);
    }
    proof {
        assert(s@.take(s@.len() as int) =~= s@);
    }
    v
}

/// The characters of `v` from `from` up to `to`, as text.
pub fn piece(v: &Vec<char>, from: usize, to: usize) -> (r: String)
    requires
        from <= to <= v@.len(),
    ensures
        r@ == v@.subrange(from as int, to as int),
{
    let mut r = String::new();
    let mut i: usize = from;
    proof {
        assert(v@.subrange(from as int, from as int) =~= Seq::<char>::empty());
    }
    while i < to
        invariant
            from <= i <= to <= v@.len(),
            r@ == v@.subrange(from as int, i as int),
        decreases to - i,
    {
        proof {
            assert(v@.subrange(from as int, i + 1) =~= v@.subrange(from as int, i as int).push(v@[i as int]));
        }
        r.push(v[i]);
        i = i + 1;
    }
    r
}

pub fn same(a: &str, b: &str) -> (r: bool)
    ensures
        r == (a@ == b@),
{
    *a == *b
}

pub fn cat2(a: &str, b: &str) -> (r: String)
    ensures
        r@ == a@ + b@,
{
    a.to_owned().concat(b)
}

pub fn cat3(a: &str, b: &str, c: &str) -> (r: String)
    ensures
        r@ == a@ + b@ + c@,
{
    a.to_owned().concat(b).concat(c)
}

pub fn cat4(a: &str, b: &str, c: &str, d: &str) -> (r: String)
    ensures
        r@ == a@ + b@ + c@ + d@,
{
    a.to_owned().concat(b).concat(c).concat(d)
}

pub fn cat5(a: &str, b: &str, c: &str, d: &str, e: &str) -> (r: String)
    ensures
        r@ == a@ + b@ + c@ + d@ + e@,
{
    a.to_owned().concat(b).concat(c).concat(d).concat(e)
}

pub fn cat6(a: &str, b: &str, c: &str, d: &str, e: &str, f: &str) -> (r: String)
    ensures
        r@ == a@ + b@ + c@ + d@ + e@ + f@,
{
    a.to_owned().concat(b).concat(c).concat(d).concat(e).concat(f)
}

pub fn cat7(a: &str, b: &str, c: &str, d: &str, e: &str, f: &str, g: &str) -> (r: String)
    ensures
        r@ == a@ + b@ + c@ + d@ + e@ + f@ + g@,
{
    a.to_owned().concat(b).concat(c).concat(d).concat(e).concat(f).concat(g)
}

pub fn cat8(a: &str, b: &str, c: &str, d: &str, e: &str, f: &str, g: &str, h: &str) -> (r: String)
    ensures
        r@ == a@ + b@ + c@ + d@ + e@ + f@ + g@ + h@,
{
    a.to_owned().concat(b).concat(c).concat(d).concat(e).concat(f).concat(g).concat(h)
}

/// The first `n` characters, or all of them.
pub open spec fn clipped(s: Seq<char>, n: nat) -> Seq<char> {
    if s.len() <= n { s } else { s.take(n as int) }
}

pub fn first_chars(s: &str, n: usize) -> (r: String)
    ensures
        r@ == clipped(s@, n as nat),
{
    let v = chars_of(s);
    if v.len() <= n {
        s.to_owned()
    } else {
        let r = piece(&v, 0, n);
        proof {
            assert(v@.subrange(0, n as int) =~= s@.take(n as int));
        }
        r
    }
}

// ── looking for a piece ─────────────────────────────────────────────────────

/// `p` stands in `s` at `i`.
pub open spec fn stands_at(s: Seq<char>, p: Seq<char>, i: int) -> bool {
    0 <= i && i + p.len() <= s.len() && s.subrange(i, i + p.len()) == p
}

/// `p` stands somewhere in `s`.
pub open spec fn holds(s: Seq<char>, p: Seq<char>) -> bool {
    exists|i: int| stands_at(s, p, i)
}

pub open spec fn starts(s: Seq<char>, p: Seq<char>) -> bool {
    stands_at(s, p, 0)
}

/// What stands in a text stands in it before another too.
pub proof fn lemma_holds_before(s: Seq<char>, after: Seq<char>, p: Seq<char>)
    requires
        holds(s, p),
    ensures
        holds(s + after, p),
{
    let i = choose|i: int| stands_at(s, p, i);
    assert((s + after).subrange(i, i + p.len()) =~= s.subrange(i, i + p.len()));
    assert(stands_at(s + after, p, i));
}

/// What stands in a text stands in it behind another too.
pub proof fn lemma_holds_after(before: Seq<char>, s: Seq<char>, p: Seq<char>)
    requires
        holds(s, p),
    ensures
        holds(before + s, p),
{
    let i = choose|i: int| stands_at(s, p, i);
    let at = before.len() + i;
    assert((before + s).subrange(at, at + p.len()) =~= s.subrange(i, i + p.len()));
    assert(stands_at(before + s, p, at));
}

pub open spec fn ends(s: Seq<char>, p: Seq<char>) -> bool {
    stands_at(s, p, s.len() - p.len())
}

pub fn at(v: &Vec<char>, p: &Vec<char>, i: usize) -> (r: bool)
    ensures
        r == stands_at(v@, p@, i as int),
{
    if i > v.len() || p.len() > v.len() - i {
        return false;
    }
    let mut k: usize = 0;
    while k < p.len()
        invariant
            k <= p.len(),
            i + p.len() <= v.len(),
            forall|j: int| 0 <= j < k ==> v@[i + j] == p@[j],
        decreases p.len() - k,
    {
        if v[i + k] != p[k] {
            proof {
                assert(v@.subrange(i as int, i + p@.len())[k as int] != p@[k as int]);
            }
            return false;
        }
        k = k + 1;
    }
    proof {
        assert(v@.subrange(i as int, i + p@.len()) =~= p@);
    }
    true
}

pub fn contains(s: &str, p: &str) -> (r: bool)
    ensures
        r == holds(s@, p@),
{
    let v = chars_of(s);
    let q = chars_of(p);
    if q.len() > v.len() {
        return false;
    }
    let last: usize = v.len() - q.len();
    let mut i: usize = 0;
    loop
        invariant
            v@ == s@,
            q@ == p@,
            i <= last,
            last == v@.len() - q@.len(),
            forall|k: int| 0 <= k < i ==> !stands_at(s@, p@, k),
        ensures
            forall|k: int| 0 <= k <= last ==> !stands_at(s@, p@, k),
        decreases last - i,
    {
        if at(&v, &q, i) {
            return true;
        }
        if i == last {
            break;
        }
        i = i + 1;
    }
    false
}

pub fn starts_with(s: &str, p: &str) -> (r: bool)
    ensures
        r == starts(s@, p@),
{
    at(&chars_of(s), &chars_of(p), 0)
}

pub fn ends_with(s: &str, p: &str) -> (r: bool)
    ensures
        r == ends(s@, p@),
{
    let v = chars_of(s);
    let q = chars_of(p);
    if q.len() > v.len() {
        return false;
    }
    at(&v, &q, v.len() - q.len())
}

/// What follows the prefix `p`, where there is one.
pub open spec fn after_prefix(s: Seq<char>, p: Seq<char>) -> Option<Seq<char>> {
    if starts(s, p) { Some(s.skip(p.len() as int)) } else { None }
}

pub fn strip_prefix(s: &str, p: &str) -> (r: Option<String>)
    ensures
        (match r { Some(t) => Some(t@), None => None }) == after_prefix(s@, p@),
{
    let v = chars_of(s);
    let q = chars_of(p);
    if at(&v, &q, 0) {
        let t = piece(&v, q.len(), v.len());
        proof {
            assert(v@.subrange(q@.len() as int, v@.len() as int) =~= s@.skip(p@.len() as int));
        }
        Some(t)
    } else {
        None
    }
}

/// What precedes the suffix `p`, where there is one.
pub open spec fn before_suffix(s: Seq<char>, p: Seq<char>) -> Option<Seq<char>> {
    if ends(s, p) { Some(s.take(s.len() - p.len())) } else { None }
}

pub fn strip_suffix(s: &str, p: &str) -> (r: Option<String>)
    ensures
        (match r { Some(t) => Some(t@), None => None }) == before_suffix(s@, p@),
{
    let v = chars_of(s);
    let q = chars_of(p);
    if q.len() <= v.len() && at(&v, &q, v.len() - q.len()) {
        let t = piece(&v, 0, v.len() - q.len());
        proof {
            assert(v@.subrange(0, v@.len() - q@.len()) =~= s@.take(s@.len() - p@.len()));
        }
        Some(t)
    } else {
        None
    }
}

// ── trimming ────────────────────────────────────────────────────────────────

pub open spec fn trim_front(s: Seq<char>) -> Seq<char>
    decreases s.len(),
{
    if s.len() > 0 && is_white(s[0]) { trim_front(s.drop_first()) } else { s }
}

pub open spec fn trim_back(s: Seq<char>) -> Seq<char>
    decreases s.len(),
{
    if s.len() > 0 && is_white(s.last()) { trim_back(s.drop_last()) } else { s }
}

/// `s` without the white space at either end.
pub open spec fn trimmed(s: Seq<char>) -> Seq<char> {
    trim_back(trim_front(s))
}

fn front_at(v: &Vec<char>, from: usize) -> (i: usize)
    requires
        from <= v@.len(),
    ensures
        from <= i <= v@.len(),
        trim_front(v@.skip(from as int)) == v@.skip(i as int),
        i < v@.len() ==> !is_white(v@[i as int]),
{
    let mut i: usize = from;
    while i < v.len() && white(v[i])
        invariant
            from <= i <= v@.len(),
            trim_front(v@.skip(from as int)) == trim_front(v@.skip(i as int)),
        decreases v.len() - i,
    {
        proof {
            assert(v@.skip(i as int).drop_first() =~= v@.skip(i + 1));
        }
        i = i + 1;
    }
    i
}

pub fn trim(s: &str) -> (r: String)
    ensures
        r@ == trimmed(s@),
{
    let v = chars_of(s);
    let i = front_at(&v, 0);
    let mut j: usize = v.len();
    proof {
        assert(v@.skip(0) =~= s@);
        assert(v@.subrange(i as int, j as int) =~= v@.skip(i as int));
    }
    while j > i && white(v[j - 1])
        invariant
            i <= j <= v@.len(),
            trimmed(s@) == trim_back(v@.subrange(i as int, j as int)),
        decreases j,
    {
        proof {
            assert(v@.subrange(i as int, j as int).drop_last() =~= v@.subrange(i as int, j - 1));
        }
        j = j - 1;
    }
    proof {
        let t = v@.subrange(i as int, j as int);
        assert(t.len() > 0 ==> t.last() == v@[j - 1]);
    }
    piece(&v, i, j)
}

/// `s` without the slashes at its end.
pub open spec fn no_slash(s: Seq<char>) -> Seq<char>
    decreases s.len(),
{
    if s.len() > 0 && s.last() == '/' { no_slash(s.drop_last()) } else { s }
}

pub fn trim_slash(s: &str) -> (r: String)
    ensures
        r@ == no_slash(s@),
{
    let v = chars_of(s);
    let mut j: usize = v.len();
    proof {
        assert(v@.subrange(0, j as int) =~= s@);
    }
    while j > 0 && v[j - 1] == '/'
        invariant
            j <= v@.len(),
            no_slash(s@) == no_slash(v@.subrange(0, j as int)),
        decreases j,
    {
        proof {
            assert(v@.subrange(0, j as int).drop_last() =~= v@.subrange(0, j - 1));
        }
        j = j - 1;
    }
    proof {
        let t = v@.subrange(0, j as int);
        assert(t.len() > 0 ==> t.last() == v@[j - 1]);
    }
    piece(&v, 0, j)
}

// ── splitting ───────────────────────────────────────────────────────────────

/// Where `c` first stands in `s`, or the length of `s`.
pub open spec fn first_at(s: Seq<char>, c: char) -> nat
    decreases s.len(),
{
    if s.len() == 0 || s[0] == c { 0 } else { 1 + first_at(s.drop_first(), c) }
}

pub proof fn lemma_first_at(s: Seq<char>, c: char)
    ensures
        first_at(s, c) <= s.len(),
        first_at(s, c) < s.len() ==> s[first_at(s, c) as int] == c,
        forall|i: int| 0 <= i < first_at(s, c) ==> s[i] != c,
    decreases s.len(),
{
    if s.len() > 0 && s[0] != c {
        lemma_first_at(s.drop_first(), c);
        assert forall|i: int| 0 <= i < first_at(s, c) implies s[i] != c by {
            if i > 0 {
                assert(s[i] == s.drop_first()[i - 1]);
            }
        }
    }
}

pub fn find_from(v: &Vec<char>, c: char, from: usize) -> (i: usize)
    requires
        from <= v@.len(),
    ensures
        from <= i <= v@.len(),
        i - from == first_at(v@.skip(from as int), c),
{
    let mut i: usize = from;
    while i < v.len() && v[i] != c
        invariant
            from <= i <= v@.len(),
            first_at(v@.skip(from as int), c) == (i - from) + first_at(v@.skip(i as int), c),
        decreases v.len() - i,
    {
        proof {
            assert(v@.skip(i as int).drop_first() =~= v@.skip(i + 1));
        }
        i = i + 1;
    }
    i
}

/// `s` cut at every `c`.
pub open spec fn parts(s: Seq<char>, c: char) -> Seq<Seq<char>>
    decreases s.len(),
    via parts_shrink
{
    if first_at(s, c) >= s.len() {
        seq![s]
    } else {
        seq![s.take(first_at(s, c) as int)] + parts(s.skip(first_at(s, c) as int + 1), c)
    }
}

/// A text has at least one part.
pub proof fn lemma_parts_some(s: Seq<char>, c: char)
    ensures
        parts(s, c).len() > 0,
{
}

#[via_fn]
proof fn parts_shrink(s: Seq<char>, c: char) {
    lemma_first_at(s, c);
}

/// The views of a list of texts.
pub open spec fn texts(v: Seq<String>) -> Seq<Seq<char>> {
    Seq::new(v.len(), |i: int| v[i]@)
}

pub fn split(s: &str, c: char) -> (r: Vec<String>)
    ensures
        texts(r@) == parts(s@, c),
{
    let v = chars_of(s);
    let mut r: Vec<String> = Vec::new();
    let mut from: usize = 0;
    proof {
        assert(v@.skip(0) =~= s@);
        assert(texts(r@) + parts(s@, c) =~= parts(s@, c));
    }
    loop
        invariant_except_break
            v@ == s@,
            from <= v@.len(),
            parts(s@, c) == texts(r@) + parts(s@.skip(from as int), c),
        ensures
            texts(r@) == parts(s@, c),
        decreases v.len() - from,
    {
        let k = find_from(&v, c, from);
        proof {
            lemma_first_at(s@.skip(from as int), c);
            assert(v@.subrange(from as int, k as int) =~= s@.skip(from as int).take(k - from));
        }
        let t = piece(&v, from, k);
        let ghost before = texts(r@);
        r.push(t);
        proof {
            assert(texts(r@) =~= before.push(t@));
        }
        if k == v.len() {
            proof {
                assert(s@.skip(from as int).take(k - from) =~= s@.skip(from as int));
                assert(before + seq![t@] =~= texts(r@));
            }
            break;
        }
        proof {
            assert(s@.skip(from as int).skip(k - from + 1) =~= s@.skip(k + 1));
            assert(before + (seq![t@] + parts(s@.skip(k + 1), c)) =~= texts(r@) + parts(s@.skip(k + 1), c));
        }
        from = k + 1;
    }
    r
}

/// The text before the first `c` and the text after it, where there is one.
pub open spec fn halves(s: Seq<char>, c: char) -> Option<(Seq<char>, Seq<char>)> {
    if first_at(s, c) >= s.len() {
        None
    } else {
        Some((s.take(first_at(s, c) as int), s.skip(first_at(s, c) as int + 1)))
    }
}

pub fn split_once(s: &str, c: char) -> (r: Option<(String, String)>)
    ensures
        (match r { Some(p) => Some((p.0@, p.1@)), None => None }) == halves(s@, c),
{
    let v = chars_of(s);
    proof {
        assert(v@.skip(0) =~= s@);
    }
    let k = find_from(&v, c, 0);
    if k == v.len() {
        None
    } else {
        proof {
            assert(v@.subrange(0, k as int) =~= s@.take(k as int));
            assert(v@.subrange(k + 1, v@.len() as int) =~= s@.skip(k + 1));
        }
        Some((piece(&v, 0, k), piece(&v, k + 1, v.len())))
    }
}

/// One line's text: what a line ending `\n` or `\r\n` closes.
pub open spec fn without_cr(s: Seq<char>) -> Seq<char> {
    if s.len() > 0 && s.last() == '\r' { s.drop_last() } else { s }
}

/// The lines of `s`; a last line without a line ending is a line too.
pub open spec fn lines_of(s: Seq<char>) -> Seq<Seq<char>>
    decreases s.len(),
    via lines_shrink
{
    if s.len() == 0 {
        seq![]
    } else if first_at(s, '\n') >= s.len() {
        seq![s]
    } else {
        seq![without_cr(s.take(first_at(s, '\n') as int))] + lines_of(s.skip(first_at(s, '\n') as int + 1))
    }
}

#[via_fn]
proof fn lines_shrink(s: Seq<char>) {
    lemma_first_at(s, '\n');
}

pub fn lines(s: &str) -> (r: Vec<String>)
    ensures
        texts(r@) == lines_of(s@),
{
    let v = chars_of(s);
    let mut r: Vec<String> = Vec::new();
    let mut from: usize = 0;
    proof {
        assert(v@.skip(0) =~= s@);
        assert(texts(r@) + lines_of(s@) =~= lines_of(s@));
    }
    while from < v.len()
        invariant
            v@ == s@,
            from <= v@.len(),
            lines_of(s@) == texts(r@) + lines_of(s@.skip(from as int)),
        decreases v.len() - from,
    {
        let k = find_from(&v, '\n', from);
        proof {
            lemma_first_at(s@.skip(from as int), '\n');
        }
        let ghost before = texts(r@);
        if k == v.len() {
            let t = piece(&v, from, k);
            proof {
                assert(t@ =~= s@.skip(from as int));
            }
            r.push(t);
            proof {
                assert(texts(r@) =~= before.push(t@));
                assert(s@.skip(k as int) =~= Seq::<char>::empty());
                assert(before + seq![t@] =~= texts(r@) + lines_of(s@.skip(k as int)));
            }
            from = k;
        } else {
            let end: usize = if k > from && v[k - 1] == '\r' { k - 1 } else { k };
            let t = piece(&v, from, end);
            proof {
                let whole = s@.skip(from as int).take(k - from);
                assert(whole.len() > 0 ==> whole.last() == v@[k - 1]);
                assert(t@ =~= without_cr(whole));
            }
            r.push(t);
            proof {
                assert(texts(r@) =~= before.push(t@));
                assert(s@.skip(from as int).skip(k - from + 1) =~= s@.skip(k + 1));
                assert(before + (seq![t@] + lines_of(s@.skip(k + 1))) =~= texts(r@) + lines_of(s@.skip(k + 1)));
            }
            from = k + 1;
        }
    }
    proof {
        assert(s@.skip(from as int) =~= Seq::<char>::empty());
        assert(texts(r@) + lines_of(s@.skip(from as int)) =~= texts(r@));
    }
    r
}

/// Where the first white character of `s` stands, or the length of `s`.
pub open spec fn white_at(s: Seq<char>) -> nat
    decreases s.len(),
{
    if s.len() == 0 || is_white(s[0]) { 0 } else { 1 + white_at(s.drop_first()) }
}

pub proof fn lemma_white_at(s: Seq<char>)
    ensures
        white_at(s) <= s.len(),
        trim_front(s).len() <= s.len(),
        s.len() > 0 && !is_white(s[0]) ==> white_at(s) > 0,
        trim_front(s).len() > 0 ==> !is_white(trim_front(s)[0]),
    decreases s.len(),
{
    if s.len() > 0 {
        lemma_white_at(s.drop_first());
    }
}

/// The words of `s`: what stands between white space.
pub open spec fn words_of(s: Seq<char>) -> Seq<Seq<char>>
    decreases s.len(),
    via words_shrink
{
    let t = trim_front(s);
    if t.len() == 0 {
        seq![]
    } else {
        seq![t.take(white_at(t) as int)] + words_of(t.skip(white_at(t) as int))
    }
}

#[via_fn]
proof fn words_shrink(s: Seq<char>) {
    lemma_white_at(s);
    lemma_white_at(trim_front(s));
}

pub fn words(s: &str) -> (r: Vec<String>)
    ensures
        texts(r@) == words_of(s@),
{
    let v = chars_of(s);
    let mut r: Vec<String> = Vec::new();
    let mut from: usize = 0;
    proof {
        assert(v@.skip(0) =~= s@);
        assert(texts(r@) + words_of(s@) =~= words_of(s@));
    }
    loop
        invariant
            v@ == s@,
            from <= v@.len(),
            words_of(s@) == texts(r@) + words_of(s@.skip(from as int)),
        ensures
            texts(r@) == words_of(s@),
        decreases v.len() - from,
    {
        let a = front_at(&v, from);
        if a == v.len() {
            proof {
                assert(s@.skip(a as int).len() == 0);
                assert(texts(r@) + seq![] =~= texts(r@));
            }
            break;
        }
        let mut b: usize = a;
        while b < v.len() && !white(v[b])
            invariant
                v@ == s@,
                a <= b <= v@.len(),
                white_at(s@.skip(a as int)) == (b - a) + white_at(s@.skip(b as int)),
            decreases v.len() - b,
        {
            proof {
                assert(s@.skip(b as int).drop_first() =~= s@.skip(b + 1));
            }
            b = b + 1;
        }
        let ghost t = s@.skip(a as int);
        let w = piece(&v, a, b);
        let ghost before = texts(r@);
        proof {
            lemma_white_at(t);
            assert(white_at(t) == b - a);
            assert(w@ =~= t.take(b - a));
            assert(t.skip(b - a) =~= s@.skip(b as int));
        }
        r.push(w);
        proof {
            assert(texts(r@) =~= before.push(w@));
            assert(before + (seq![w@] + words_of(s@.skip(b as int))) =~= texts(r@) + words_of(s@.skip(b as int)));
        }
        from = b;
    }
    r
}

// ── numbers ─────────────────────────────────────────────────────────────────

/// A number in decimal.
pub open spec fn dec(n: nat) -> Seq<char>
    decreases n,
{
    if n < 10 { seq![digit_char(n)] } else { dec(n / 10).push(digit_char(n % 10)) }
}

pub fn decimal(n: u64) -> (r: String)
    ensures
        r@ == dec(n as nat),
    decreases n,
{
    if n < 10 {
        let mut r = String::new();
        r.push(digit_of(n));
        proof {
            assert(r@ =~= seq![digit_char(n as nat)]);
        }
        r
    } else {
        let mut r = decimal(n / 10);
        r.push(digit_of(n % 10));
        r
    }
}

/// A whole number in decimal, with its sign where it is negative.
pub open spec fn dec_int(n: int) -> Seq<char> {
    if n < 0 { seq!['-'] + dec((-n) as nat) } else { dec(n as nat) }
}

pub fn decimal_int(n: i64) -> (r: String)
    ensures
        r@ == dec_int(n as int),
{
    if n < 0 {
        let size: u64 = if n == i64::MIN { 0x8000_0000_0000_0000 } else { (-n) as u64 };
        let mut r = String::new();
        r.push('-');
        proof {
            assert(r@ =~= seq!['-']);
        }
        r.concat(decimal(size).as_str())
    } else {
        decimal(n as u64)
    }
}

pub open spec fn all_digits(s: Seq<char>) -> bool {
    forall|i: int| 0 <= i < s.len() ==> (#[trigger] digit_value(s[i])) is Some
}

/// The number that a run of digits writes.
pub open spec fn digits_value(s: Seq<char>) -> nat
    decreases s.len(),
{
    if s.len() == 0 {
        0
    } else {
        digits_value(s.drop_last()) * 10 + digit_value(s.last())->0
    }
}

/// What a decimal literal without a sign, or with `+`, reads as.
pub open spec fn unsigned_of(s: Seq<char>, max: nat) -> Option<nat> {
    let d = if s.len() > 0 && s[0] == '+' { s.drop_first() } else { s };
    if d.len() > 0 && all_digits(d) && digits_value(d) <= max { Some(digits_value(d)) } else { None }
}

/// What a decimal literal with or without a sign reads as.
pub open spec fn signed_of(s: Seq<char>) -> Option<int> {
    if s.len() > 0 && s[0] == '-' {
        let d = s.drop_first();
        if d.len() > 0 && all_digits(d) && digits_value(d) <= 0x8000_0000_0000_0000 {
            Some(-(digits_value(d) as int))
        } else {
            None
        }
    } else {
        match unsigned_of(s, 0x7fff_ffff_ffff_ffff) {
            Some(n) => Some(n as int),
            None => None,
        }
    }
}

proof fn lemma_digits_grow(s: Seq<char>, i: int)
    requires
        0 <= i <= s.len(),
    ensures
        digits_value(s.take(i)) <= digits_value(s),
    decreases s.len() - i,
{
    if i < s.len() {
        lemma_digits_grow(s, i + 1);
        assert(s.take(i + 1).drop_last() =~= s.take(i));
    } else {
        assert(s.take(i) =~= s);
    }
}

/// The number that the digits of `v` from `from` on write, where there are any, nothing else
/// stands there and it is at most `max`.
pub fn read_digits(v: &Vec<char>, from: usize, max: u64) -> (r: Option<u64>)
    requires
        from <= v@.len(),
    ensures
        (match r { Some(n) => Some(n as nat), None => None }) == ({
            let d = v@.skip(from as int);
            if d.len() > 0 && all_digits(d) && digits_value(d) <= max { Some(digits_value(d)) } else { None }
        }),
{
    let ghost d = v@.skip(from as int);
    if from == v.len() {
        return None;
    }
    let mut n: u64 = 0;
    let mut i: usize = from;
    proof {
        assert(d.take(0) =~= Seq::<char>::empty());
    }
    while i < v.len()
        invariant
            from <= i <= v@.len(),
            d == v@.skip(from as int),
            n == digits_value(d.take(i - from)),
            n <= max,
            forall|k: int| 0 <= k < i - from ==> (#[trigger] digit_value(d[k])) is Some,
        decreases v.len() - i,
    {
        proof {
            assert(d.take(i - from + 1).drop_last() =~= d.take(i - from));
            assert(d.take(i - from + 1).last() == v@[i as int]);
            assert(d[i - from] == v@[i as int]);
        }
        match value_of(v[i]) {
            None => {
                return None;
            },
            Some(x) => {
                proof {
                    lemma_digits_grow(d, i - from + 1);
                }
                let next: u128 = (n as u128) * 10 + (x as u128);
                if next > max as u128 {
                    return None;
                }
                n = next as u64;
            },
        }
        i = i + 1;
    }
    proof {
        assert(d.take(d.len() as int) =~= d);
    }
    Some(n)
}

/// The number a text writes, where it is a decimal literal of at most `max`.
pub fn parse_up_to(s: &str, max: u64) -> (r: Option<u64>)
    ensures
        (match r { Some(n) => Some(n as nat), None => None }) == unsigned_of(s@, max as nat),
{
    let v = chars_of(s);
    proof {
        assert(v@.skip(0) =~= s@);
        assert(v@.len() > 0 ==> v@.skip(1) =~= s@.drop_first());
    }
    if v.len() > 0 && v[0] == '+' {
        read_digits(&v, 1, max)
    } else {
        read_digits(&v, 0, max)
    }
}

/// Why a text is no unsigned number of its type: it is empty, or not a number at all, or too large.
pub open spec fn unsigned_error(s: Seq<char>) -> Seq<char> {
    let d = if s.len() > 0 && s[0] == '+' { s.drop_first() } else { s };
    if s.len() == 0 {
        "cannot parse integer from empty string"@
    } else if d.len() == 0 || !all_digits(d) {
        "invalid digit found in string"@
    } else {
        "number too large to fit in target type"@
    }
}

pub fn digits_from(v: &Vec<char>, from: usize) -> (r: bool)
    requires
        from <= v@.len(),
    ensures
        r == all_digits(v@.skip(from as int)),
{
    let ghost d = v@.skip(from as int);
    let mut i: usize = from;
    while i < v.len()
        invariant
            from <= i <= v@.len(),
            d == v@.skip(from as int),
            forall|k: int| 0 <= k < i - from ==> (#[trigger] digit_value(d[k])) is Some,
        decreases v.len() - i,
    {
        proof {
            assert(d[i - from] == v@[i as int]);
        }
        if value_of(v[i]).is_none() {
            return false;
        }
        i = i + 1;
    }
    true
}

pub fn why_unsigned(s: &str) -> (r: String)
    ensures
        r@ == unsigned_error(s@),
{
    let v = chars_of(s);
    proof {
        assert(v@.skip(0) =~= s@);
        assert(v@.len() > 0 ==> v@.skip(1) =~= s@.drop_first());
    }
    let from: usize = if v.len() > 0 && v[0] == '+' { 1 } else { 0 };
    if v.len() == 0 {
        "cannot parse integer from empty string".to_owned()
    } else if v.len() == from || !digits_from(&v, from) {
        "invalid digit found in string".to_owned()
    } else {
        "number too large to fit in target type".to_owned()
    }
}

/// The signed number a text writes, where it is a decimal literal that an `i64` holds.
pub fn parse_signed(s: &str) -> (r: Option<i64>)
    ensures
        (match r { Some(n) => Some(n as int), None => None }) == signed_of(s@),
{
    let v = chars_of(s);
    proof {
        assert(v@.len() > 0 ==> v@.skip(1) =~= s@.drop_first());
    }
    if v.len() > 0 && v[0] == '-' {
        match read_digits(&v, 1, 0x8000_0000_0000_0000) {
            None => None,
            Some(n) => Some((0 - (n as i128)) as i64),
        }
    } else {
        match parse_up_to(s, 0x7fff_ffff_ffff_ffff) {
            None => None,
            Some(n) => Some(n as i64),
        }
    }
}

/// A number in decimal is digits, and they write the number.
pub proof fn lemma_dec(n: nat)
    ensures
        dec(n).len() > 0,
        all_digits(dec(n)),
        digits_value(dec(n)) == n,
    decreases n,
{
    reveal_with_fuel(digits_value, 2);
    if n < 10 {
        assert(dec(n).drop_last() =~= Seq::<char>::empty());
        assert(digit_value(digit_char(n)) == Some(n));
    } else {
        lemma_dec(n / 10);
        assert(dec(n).drop_last() =~= dec(n / 10));
        assert(digit_value(digit_char(n % 10)) == Some(n % 10));
        assert forall|i: int| 0 <= i < dec(n).len() implies (#[trigger] digit_value(dec(n)[i])) is Some by {
            if i < dec(n / 10).len() {
                assert(digit_value(dec(n / 10)[i]) is Some);
            }
        }
    }
}

/// What a number is written as is read as the number.
pub proof fn law_a_number_reads_as_it_is_written(n: nat, max: nat)
    requires
        n <= max,
    ensures
        unsigned_of(dec(n), max) == Some(n),
{
    lemma_dec(n);
    assert(digit_value(dec(n)[0]) is Some);
}

// ── the rest ────────────────────────────────────────────────────────────────

/// A character in lower case, if it is an ASCII letter.
pub open spec fn ascii_lower(c: char) -> char {
    if 'A' <= c <= 'Z' { ((c as int) + 32) as char } else { c }
}

/// Two texts are the same but for the case of their ASCII letters.
pub open spec fn same_letters(a: Seq<char>, b: Seq<char>) -> bool {
    a.len() == b.len() && forall|i: int| 0 <= i < a.len() ==> ascii_lower(a[i]) == ascii_lower(#[trigger] b[i])
}

fn lower(c: char) -> (r: u32)
    ensures
        r == ascii_lower(c) as u32,
{
    if 'A' <= c && c <= 'Z' { c as u32 + 32 } else { c as u32 }
}

pub fn eq_ignore_ascii_case(a: &str, b: &str) -> (r: bool)
    ensures
        r == same_letters(a@, b@),
{
    let v = chars_of(a);
    let w = chars_of(b);
    if v.len() != w.len() {
        return false;
    }
    let mut i: usize = 0;
    while i < v.len()
        invariant
            v@ == a@,
            w@ == b@,
            i <= v@.len(),
            v@.len() == w@.len(),
            forall|k: int| 0 <= k < i ==> ascii_lower(v@[k]) == ascii_lower(#[trigger] w@[k]),
        decreases v.len() - i,
    {
        if lower(v[i]) != lower(w[i]) {
            proof {
                assert(ascii_lower(v@[i as int]) != ascii_lower(w@[i as int]));
            }
            return false;
        }
        i = i + 1;
    }
    true
}

/// A list of texts with `sep` between them.
pub open spec fn joined(v: Seq<Seq<char>>, sep: Seq<char>) -> Seq<char>
    decreases v.len(),
{
    if v.len() == 0 {
        seq![]
    } else if v.len() == 1 {
        v[0]
    } else {
        joined(v.drop_last(), sep) + sep + v.last()
    }
}

pub fn join(v: &Vec<String>, sep: &str) -> (r: String)
    ensures
        r@ == joined(texts(v@), sep@),
{
    let mut r = String::new();
    let mut i: usize = 0;
    proof {
        assert(texts(v@).take(0) =~= Seq::<Seq<char>>::empty());
        assert(r@ =~= joined(texts(v@).take(0), sep@));
    }
    while i < v.len()
        invariant
            i <= v@.len(),
            r@ == joined(texts(v@).take(i as int), sep@),
        decreases v.len() - i,
    {
        proof {
            let t = texts(v@).take(i + 1);
            assert(t.drop_last() =~= texts(v@).take(i as int));
            assert(t.last() == v@[i as int]@);
        }
        if i == 0 {
            r = v[i].clone();
        } else {
            r = r.concat(sep).concat(v[i].as_str());
        }
        i = i + 1;
    }
    proof {
        assert(texts(v@).take(v@.len() as int) =~= texts(v@));
    }
    r
}

/// Whether a list of texts holds `t`.
pub fn has_text(v: &Vec<String>, t: &str) -> (r: bool)
    ensures
        r == texts(v@).contains(t@),
{
    let mut i: usize = 0;
    while i < v.len()
        invariant
            i <= v@.len(),
            forall|k: int| 0 <= k < i ==> #[trigger] texts(v@)[k] != t@,
        decreases v.len() - i,
    {
        if same(v[i].as_str(), t) {
            proof {
                assert(texts(v@)[i as int] == t@);
            }
            return true;
        }
        proof {
            assert(texts(v@)[i as int] == v@[i as int]@);
        }
        i = i + 1;
    }
    false
}

// ── short lists ─────────────────────────────────────────────────────────────

/// The first `n` texts, or all of them.
pub fn first_texts(v: &Vec<String>, n: usize) -> (r: Vec<String>)
    ensures
        texts(r@) == (if v@.len() <= n { texts(v@) } else { texts(v@).take(n as int) }),
{
    let mut r: Vec<String> = Vec::new();
    let mut i: usize = 0;
    while i < v.len() && i < n
        invariant
            i <= v@.len(),
            i <= n,
            r@.len() == i,
            forall|k: int| 0 <= k < i ==> (#[trigger] r@[k])@ == v@[k]@,
        decreases v.len() - i,
    {
        r.push(v[i].clone());
        i = i + 1;
    }
    proof {
        assert(texts(r@) =~= (if v@.len() <= n { texts(v@) } else { texts(v@).take(n as int) }));
    }
    r
}

pub fn copy_texts(v: &Vec<String>) -> (r: Vec<String>)
    ensures
        texts(r@) == texts(v@),
{
    let mut r: Vec<String> = Vec::new();
    let mut i: usize = 0;
    while i < v.len()
        invariant
            i <= v@.len(),
            r@.len() == i,
            forall|k: int| 0 <= k < i ==> (#[trigger] r@[k])@ == v@[k]@,
        decreases v.len() - i,
    {
        r.push(v[i].clone());
        i = i + 1;
    }
    proof {
        assert(texts(r@) =~= texts(v@));
    }
    r
}

pub fn list1(a: &str) -> (r: Vec<String>)
    ensures
        texts(r@) == seq![a@],
{
    let mut r: Vec<String> = Vec::new();
    r.push(a.to_owned());
    proof {
        assert(texts(r@) =~= seq![a@]);
    }
    r
}

pub fn list2(a: &str, b: &str) -> (r: Vec<String>)
    ensures
        texts(r@) == seq![a@, b@],
{
    let mut r = list1(a);
    let ghost before = r@;
    r.push(b.to_owned());
    proof {
        assert(texts(r@) =~= texts(before).push(b@));
        assert(texts(r@) =~= seq![a@, b@]);
    }
    r
}

pub fn list3(a: &str, b: &str, c: &str) -> (r: Vec<String>)
    ensures
        texts(r@) == seq![a@, b@, c@],
{
    let mut r = list2(a, b);
    let ghost before = r@;
    r.push(c.to_owned());
    proof {
        assert(texts(r@) =~= texts(before).push(c@));
        assert(texts(r@) =~= seq![a@, b@, c@]);
    }
    r
}

pub fn list4(a: &str, b: &str, c: &str, d: &str) -> (r: Vec<String>)
    ensures
        texts(r@) == seq![a@, b@, c@, d@],
{
    let mut r = list3(a, b, c);
    let ghost before = r@;
    r.push(d.to_owned());
    proof {
        assert(texts(r@) =~= texts(before).push(d@));
        assert(texts(r@) =~= seq![a@, b@, c@, d@]);
    }
    r
}

pub fn list5(a: &str, b: &str, c: &str, d: &str, e: &str) -> (r: Vec<String>)
    ensures
        texts(r@) == seq![a@, b@, c@, d@, e@],
{
    let mut r = list4(a, b, c, d);
    let ghost before = r@;
    r.push(e.to_owned());
    proof {
        assert(texts(r@) =~= texts(before).push(e@));
        assert(texts(r@) =~= seq![a@, b@, c@, d@, e@]);
    }
    r
}

pub fn list6(a: &str, b: &str, c: &str, d: &str, e: &str, f: &str) -> (r: Vec<String>)
    ensures
        texts(r@) == seq![a@, b@, c@, d@, e@, f@],
{
    let mut r = list5(a, b, c, d, e);
    let ghost before = r@;
    r.push(f.to_owned());
    proof {
        assert(texts(r@) =~= texts(before).push(f@));
        assert(texts(r@) =~= seq![a@, b@, c@, d@, e@, f@]);
    }
    r
}

pub fn list7(a: &str, b: &str, c: &str, d: &str, e: &str, f: &str, g: &str) -> (r: Vec<String>)
    ensures
        texts(r@) == seq![a@, b@, c@, d@, e@, f@, g@],
{
    let mut r = list6(a, b, c, d, e, f);
    let ghost before = r@;
    r.push(g.to_owned());
    proof {
        assert(texts(r@) =~= texts(before).push(g@));
        assert(texts(r@) =~= seq![a@, b@, c@, d@, e@, f@, g@]);
    }
    r
}

pub fn list8(a: &str, b: &str, c: &str, d: &str, e: &str, f: &str, g: &str, h: &str) -> (r: Vec<String>)
    ensures
        texts(r@) == seq![a@, b@, c@, d@, e@, f@, g@, h@],
{
    let mut r = list7(a, b, c, d, e, f, g);
    let ghost before = r@;
    r.push(h.to_owned());
    proof {
        assert(texts(r@) =~= texts(before).push(h@));
        assert(texts(r@) =~= seq![a@, b@, c@, d@, e@, f@, g@, h@]);
    }
    r
}

pub fn list9(a: &str, b: &str, c: &str, d: &str, e: &str, f: &str, g: &str, h: &str, i: &str) -> (r: Vec<String>)
    ensures
        texts(r@) == seq![a@, b@, c@, d@, e@, f@, g@, h@, i@],
{
    let mut r = list8(a, b, c, d, e, f, g, h);
    let ghost before = r@;
    r.push(i.to_owned());
    proof {
        assert(texts(r@) =~= texts(before).push(i@));
        assert(texts(r@) =~= seq![a@, b@, c@, d@, e@, f@, g@, h@, i@]);
    }
    r
}

pub fn list10(a: &str, b: &str, c: &str, d: &str, e: &str, f: &str, g: &str, h: &str, i: &str, j: &str) -> (r: Vec<String>)
    ensures
        texts(r@) == seq![a@, b@, c@, d@, e@, f@, g@, h@, i@, j@],
{
    let mut r = list9(a, b, c, d, e, f, g, h, i);
    let ghost before = r@;
    r.push(j.to_owned());
    proof {
        assert(texts(r@) =~= texts(before).push(j@));
        assert(texts(r@) =~= seq![a@, b@, c@, d@, e@, f@, g@, h@, i@, j@]);
    }
    r
}

// ── in order ────────────────────────────────────────────────────────────────

/// `a` stands before `b`, or is it, where texts are ordered character by character.
pub open spec fn not_after(a: Seq<char>, b: Seq<char>) -> bool
    decreases a.len(),
{
    if a.len() == 0 {
        true
    } else if b.len() == 0 {
        false
    } else if a[0] != b[0] {
        (a[0] as u32) < (b[0] as u32)
    } else {
        not_after(a.drop_first(), b.drop_first())
    }
}

fn in_order(a: &Vec<char>, b: &Vec<char>) -> (r: bool)
    ensures
        r == not_after(a@, b@),
{
    let mut i: usize = 0;
    proof {
        assert(a@.skip(0) =~= a@);
        assert(b@.skip(0) =~= b@);
    }
    while i < a.len()
        invariant
            i <= a@.len(),
            i <= b@.len(),
            not_after(a@, b@) == not_after(a@.skip(i as int), b@.skip(i as int)),
        decreases a.len() - i,
    {
        if i >= b.len() {
            return false;
        }
        proof {
            assert(a@.skip(i as int).drop_first() =~= a@.skip(i + 1));
            assert(b@.skip(i as int).drop_first() =~= b@.skip(i + 1));
        }
        if a[i] != b[i] {
            return (a[i] as u32) < (b[i] as u32);
        }
        i = i + 1;
    }
    true
}

/// `t` put into a sorted list, behind those that do not stand after it.
pub open spec fn put_in(list: Seq<Seq<char>>, t: Seq<char>) -> Seq<Seq<char>>
    decreases list.len(),
{
    if list.len() == 0 {
        seq![t]
    } else if not_after(list.last(), t) {
        list.push(t)
    } else {
        put_in(list.drop_last(), t).push(list.last())
    }
}

/// The texts in order.
pub open spec fn sorted(v: Seq<Seq<char>>) -> Seq<Seq<char>>
    decreases v.len(),
{
    if v.len() == 0 { seq![] } else { put_in(sorted(v.drop_last()), v.last()) }
}

fn put(list: &mut Vec<String>, t: String)
    ensures
        texts(final(list)@) == put_in(texts(old(list)@), t@),
    decreases old(list)@.len(),
{
    let ghost before = list@;
    match list.pop() {
        None => {
            list.push(t);
            proof {
                assert(texts(list@) =~= seq![t@]);
            }
        },
        Some(last) => {
            proof {
                assert(texts(list@) =~= texts(before).drop_last());
                assert(texts(before).last() == last@);
            }
            if in_order(&chars_of(last.as_str()), &chars_of(t.as_str())) {
                list.push(last);
                list.push(t);
                proof {
                    assert(texts(list@) =~= texts(before).push(t@));
                }
            } else {
                put(list, t);
                let ghost mid = list@;
                list.push(last);
                proof {
                    assert(texts(list@) =~= texts(mid).push(last@));
                }
            }
        },
    }
}

pub fn sort(v: &Vec<String>) -> (r: Vec<String>)
    ensures
        texts(r@) == sorted(texts(v@)),
{
    let ghost all = texts(v@);
    let mut r: Vec<String> = Vec::new();
    let mut i: usize = 0;
    proof {
        assert(all.take(0) =~= Seq::<Seq<char>>::empty());
        assert(texts(r@) =~= Seq::<Seq<char>>::empty());
    }
    while i < v.len()
        invariant
            i <= v@.len(),
            all == texts(v@),
            texts(r@) == sorted(all.take(i as int)),
        decreases v.len() - i,
    {
        proof {
            assert(all.take(i + 1).drop_last() =~= all.take(i as int));
            assert(all.take(i + 1).last() == v@[i as int]@);
        }
        put(&mut r, v[i].clone());
        i = i + 1;
    }
    proof {
        assert(all.take(all.len() as int) =~= all);
    }
    r
}

proof fn lemma_put_in(list: Seq<Seq<char>>, t: Seq<char>)
    ensures
        put_in(list, t).to_multiset() =~= list.to_multiset().insert(t),
    decreases list.len(),
{
    broadcast use vstd::seq_lib::group_to_multiset_ensures;

    if list.len() == 0 {
        assert(seq![t] =~= Seq::<Seq<char>>::empty().push(t));
        assert(list =~= Seq::<Seq<char>>::empty());
    } else if not_after(list.last(), t) {
    } else {
        lemma_put_in(list.drop_last(), t);
        assert(list =~= list.drop_last().push(list.last()));
    }
}

/// Nothing is lost or added by putting texts in order.
pub proof fn law_sorting_keeps_the_texts(v: Seq<Seq<char>>)
    ensures
        sorted(v).to_multiset() =~= v.to_multiset(),
    decreases v.len(),
{
    broadcast use vstd::seq_lib::group_to_multiset_ensures;

    if v.len() > 0 {
        law_sorting_keeps_the_texts(v.drop_last());
        lemma_put_in(sorted(v.drop_last()), v.last());
        assert(v =~= v.drop_last().push(v.last()));
    }
}

/// Whether two lists are one.
pub fn same_texts(a: &Vec<String>, b: &Vec<String>) -> (r: bool)
    ensures
        r == (texts(a@) == texts(b@)),
{
    if a.len() != b.len() {
        proof {
            assert(texts(a@).len() != texts(b@).len());
        }
        return false;
    }
    let mut i: usize = 0;
    while i < a.len()
        invariant
            i <= a@.len(),
            a@.len() == b@.len(),
            forall|k: int| 0 <= k < i ==> a@[k]@ == b@[k]@,
        decreases a.len() - i,
    {
        if !same(a[i].as_str(), b[i].as_str()) {
            proof {
                assert(texts(a@)[i as int] != texts(b@)[i as int]);
            }
            return false;
        }
        i = i + 1;
    }
    proof {
        assert(texts(a@) =~= texts(b@));
    }
    true
}

} // verus!
