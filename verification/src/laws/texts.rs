//! Of texts and the numbers in them.

use vstd::prelude::*;

use crate::stages::monthly::outages::{is_ipv4, is_octet};
use crate::text::{
    after_prefix, before_suffix, clipped, dec, dec_int, digit_value, ends, first_at, halves, holds, is_white, joined, lemma_dec, lemma_first_at,
    lines_of, no_slash, not_after, parts, put_in, signed_of, sorted, starts, trim_back, trim_front, trimmed, unsigned_of, white_at, words_of,
};

verus! {

/// Nothing but white space.
pub open spec fn all_white(s: Seq<char>) -> bool {
    forall|i: int| 0 <= i < s.len() ==> is_white(#[trigger] s[i])
}

/// Whatever white space stands around a text, trimming takes it, and nothing of the text.
pub proof fn law_trimming_takes_the_white_space_around(before: Seq<char>, s: Seq<char>, after: Seq<char>)
    requires
        all_white(before),
        all_white(after),
        s.len() > 0 ==> !is_white(s[0]) && !is_white(s.last()),
    ensures
        trimmed(before + s + after) == s,
{
    if s.len() == 0 {
        let w = before + after;
        assert(before + s + after =~= w);
        assert forall|i: int| 0 <= i < w.len() implies is_white(#[trigger] w[i]) by {
            if i < before.len() {
                assert(is_white(before[i]));
            } else {
                assert(is_white(after[i - before.len()]));
            }
        }
        assert(w + Seq::<char>::empty() =~= w);
        lemma_front(w, seq![]);
    } else {
        assert(before + s + after =~= before + (s + after));
        assert((s + after)[0] == s[0]);
        lemma_front(before, s + after);
        lemma_back(s, after);
    }
}

proof fn lemma_front(before: Seq<char>, s: Seq<char>)
    requires
        all_white(before),
        s.len() > 0 ==> !is_white(s[0]),
    ensures
        trim_front(before + s) == s,
    decreases before.len(),
{
    if before.len() == 0 {
        assert(before + s =~= s);
    } else {
        let t = before.drop_first();
        assert forall|i: int| 0 <= i < t.len() implies is_white(#[trigger] t[i]) by {
            assert(is_white(before[i + 1]));
        }
        lemma_front(t, s);
        assert((before + s).drop_first() =~= t + s);
        assert((before + s)[0] == before[0]);
        assert(is_white(before[0]));
    }
}

proof fn lemma_back(s: Seq<char>, after: Seq<char>)
    requires
        all_white(after),
        s.len() > 0,
        !is_white(s.last()),
    ensures
        trim_back(s + after) == s,
    decreases after.len(),
{
    if after.len() == 0 {
        assert(s + after =~= s);
    } else {
        let t = after.drop_last();
        assert forall|i: int| 0 <= i < t.len() implies is_white(#[trigger] t[i]) by {
            assert(is_white(after[i]));
        }
        lemma_back(s, t);
        assert((s + after).drop_last() =~= s + t);
        assert((s + after).last() == after.last());
        assert(is_white(after[after.len() - 1]));
    }
}

/// However many slashes a url ends in, they are taken, and no others.
pub proof fn law_only_the_slashes_at_the_end_are_taken(s: Seq<char>, n: nat)
    requires
        s.len() == 0 || s.last() != '/',
    ensures
        no_slash(s + Seq::new(n, |i: int| '/')) == s,
    decreases n,
{
    let tail = Seq::new(n, |i: int| '/');
    if n == 0 {
        assert(s + tail =~= s);
    } else {
        let less = Seq::new((n - 1) as nat, |i: int| '/');
        law_only_the_slashes_at_the_end_are_taken(s, (n - 1) as nat);
        assert((s + tail).drop_last() =~= s + less);
        assert((s + tail).last() == '/');
    }
}

/// Where a character first stands.
proof fn lemma_first_is(a: Seq<char>, c: char, b: Seq<char>)
    requires
        !a.contains(c),
    ensures
        first_at(a + seq![c] + b, c) == a.len(),
        first_at(a, c) == a.len(),
    decreases a.len(),
{
    let s = a + seq![c] + b;
    lemma_first_at(s, c);
    lemma_first_at(a, c);
    assert(s[a.len() as int] == c);
    let f = first_at(s, c) as int;
    if f < a.len() {
        assert(s[f] == a[f]);
        assert(a.contains(a[f]));
    }
    let g = first_at(a, c) as int;
    if g < a.len() {
        assert(a.contains(a[g]));
    }
}

/// A text is halved at the first of the character, and at no other; without one it has no halves.
pub proof fn law_a_text_is_halved_at_the_first(a: Seq<char>, c: char, b: Seq<char>)
    requires
        !a.contains(c),
    ensures
        halves(a + seq![c] + b, c) == Some((a, b)),
        halves(a, c) is None,
{
    lemma_first_is(a, c, b);
    let s = a + seq![c] + b;
    assert(s.take(a.len() as int) =~= a);
    assert(s.skip(a.len() as int + 1) =~= b);
}

/// A text is cut at every one of the character: what stands before the first is a part, and what is behind it is cut again.
pub proof fn law_a_text_is_cut_at_every_one(a: Seq<char>, c: char, b: Seq<char>)
    requires
        !a.contains(c),
    ensures
        parts(a + seq![c] + b, c) == seq![a] + parts(b, c),
        parts(a, c) == seq![a],
{
    lemma_first_is(a, c, b);
    let s = a + seq![c] + b;
    assert(s.take(a.len() as int) =~= a);
    assert(s.skip(a.len() as int + 1) =~= b);
}

/// A line is what stands before its ending, whichever of the two it has; the rest is read on.
pub proof fn law_a_line_ends_at_its_ending(line: Seq<char>, rest: Seq<char>)
    requires
        !line.contains('\n'),
        line.len() == 0 || line.last() != '\r',
    ensures
        lines_of(line + seq!['\n'] + rest) == seq![line] + lines_of(rest),
        lines_of(line + seq!['\r', '\n'] + rest) == seq![line] + lines_of(rest),
        lines_of(line) == if line.len() == 0 { Seq::<Seq<char>>::empty() } else { seq![line] },
{
    lemma_first_is(line, '\n', rest);
    let s = line + seq!['\n'] + rest;
    assert(s.take(line.len() as int) =~= line);
    assert(s.skip(line.len() as int + 1) =~= rest);
    let l = line.push('\r');
    assert(!l.contains('\n')) by {
        if l.contains('\n') {
            let i = choose|i: int| 0 <= i < l.len() && l[i] == '\n';
            assert(line[i] == '\n');
            assert(line.contains(line[i]));
        }
    }
    lemma_first_is(l, '\n', rest);
    let w = line + seq!['\r', '\n'] + rest;
    assert(w =~= l + seq!['\n'] + rest);
    assert(w.take(l.len() as int) =~= l);
    assert(w.skip(l.len() as int + 1) =~= rest);
    assert(l.drop_last() =~= line);
}

/// A word is what stands between white space: it is taken whole, and the rest is read on.
pub proof fn law_a_word_stands_between_white_space(before: Seq<char>, word: Seq<char>, gap: char, rest: Seq<char>)
    requires
        all_white(before),
        word.len() > 0,
        forall|i: int| 0 <= i < word.len() ==> !is_white(#[trigger] word[i]),
        is_white(gap),
    ensures
        words_of(before + word + seq![gap] + rest) == seq![word] + words_of(rest),
        words_of(before + word) == seq![word],
        words_of(before) == Seq::<Seq<char>>::empty(),
{
    let t = word + seq![gap] + rest;
    assert(before + word + seq![gap] + rest =~= before + t);
    assert(t[0] == word[0]);
    lemma_front(before, t);
    lemma_front(before, word);
    assert(before + Seq::<char>::empty() =~= before);
    lemma_front(before, seq![]);
    lemma_white_is(word, seq![gap] + rest);
    lemma_white_is(word, seq![]);
    assert(word + (seq![gap] + rest) =~= t);
    assert(word + Seq::<char>::empty() =~= word);
    assert(t.take(word.len() as int) =~= word);
    assert(t.skip(word.len() as int) =~= seq![gap] + rest);
    assert(word.take(word.len() as int) =~= word);
    assert(word.skip(word.len() as int) =~= Seq::<char>::empty());
    let g = seq![gap] + rest;
    assert(g.drop_first() =~= rest);
    assert(trim_front(g) == trim_front(rest));
    assert(words_of(g) == words_of(rest));
    reveal_with_fuel(words_of, 2);
}

proof fn lemma_white_is(word: Seq<char>, rest: Seq<char>)
    requires
        forall|i: int| 0 <= i < word.len() ==> !is_white(#[trigger] word[i]),
        rest.len() == 0 || is_white(rest[0]),
    ensures
        white_at(word + rest) == word.len(),
    decreases word.len(),
{
    let s = word + rest;
    if word.len() > 0 {
        assert(!is_white(word[0]) && s[0] == word[0]);
        assert(s.drop_first() =~= word.drop_first() + rest);
        assert forall|i: int| 0 <= i < word.drop_first().len() implies !is_white(#[trigger] word.drop_first()[i]) by {
            assert(!is_white(word[i + 1]));
        }
        lemma_white_is(word.drop_first(), rest);
    } else {
        assert(s =~= rest);
    }
}

/// White space is a space, a tab, a line's ending and what Unicode counts among them, and no letter, digit or mark.
pub proof fn law_what_is_white()
    ensures
        is_white(' ') && is_white('\t') && is_white('\n') && is_white('\r') && is_white('\u{a0}') && is_white('\u{3000}'),
        forall|c: char| '!' <= c <= '~' ==> !is_white(c),
{
}

/// Texts joined have the separator between them, and only there.
pub proof fn law_texts_are_joined_by_the_separator(v: Seq<Seq<char>>, last: Seq<char>, sep: Seq<char>)
    ensures
        joined(Seq::<Seq<char>>::empty(), sep) == Seq::<char>::empty(),
        joined(seq![last], sep) == last,
        v.len() > 0 ==> joined(v.push(last), sep) == joined(v, sep) + sep + last,
{
    assert(v.push(last).drop_last() =~= v);
}

/// What a prefix and a suffix leave is what stood behind it and before it; what has neither has nothing left.
pub proof fn law_a_prefix_and_a_suffix_come_off(s: Seq<char>, p: Seq<char>)
    ensures
        after_prefix(p + s, p) == Some(s),
        before_suffix(s + p, p) == Some(s),
        after_prefix(s, p) matches Some(rest) ==> s == p + rest,
        before_suffix(s, p) matches Some(rest) ==> s == rest + p,
        starts(s, p) <==> after_prefix(s, p) is Some,
        ends(s, p) <==> before_suffix(s, p) is Some,
{
    assert((p + s).subrange(0, p.len() as int) =~= p);
    assert((p + s).skip(p.len() as int) =~= s);
    assert((s + p).subrange(s.len() as int, (s + p).len() as int) =~= p);
    assert((s + p).take(s.len() as int) =~= s);
    if starts(s, p) {
        assert(s =~= p + s.skip(p.len() as int));
    }
    if ends(s, p) {
        assert(s =~= s.take(s.len() - p.len()) + p);
    }
}

/// A text holds another exactly where the other stands somewhere in it, whole.
pub proof fn law_a_text_holds_what_stands_in_it(a: Seq<char>, p: Seq<char>, b: Seq<char>, s: Seq<char>)
    ensures
        holds(a + p + b, p),
        holds(s, p) ==> exists|i: int| 0 <= i && i + p.len() <= s.len() && #[trigger] s.subrange(i, i + p.len()) == p,
{
    let t = a + p + b;
    assert(t.subrange(a.len() as int, a.len() as int + p.len()) =~= p);
    assert(crate::text::stands_at(t, p, a.len() as int));
    if holds(s, p) {
        let i = choose|i: int| crate::text::stands_at(s, p, i);
        assert(s.subrange(i, i + p.len()) == p);
    }
}

/// A text is clipped to its first characters, and one that is short enough not at all.
pub proof fn law_a_text_is_clipped_at_its_end(s: Seq<char>, rest: Seq<char>)
    ensures
        clipped(s + rest, s.len()) == s,
        clipped(s, s.len() + rest.len()) == s,
{
    assert((s + rest).take(s.len() as int) =~= s);
}

/// A number that is written, with its sign or without, reads as the number; one that is too large, or no number, does not.
pub proof fn law_a_whole_number_reads_as_it_is_written(n: int, max: nat)
    requires
        -0x8000_0000_0000_0000 <= n <= 0x7fff_ffff_ffff_ffff,
    ensures
        signed_of(dec_int(n)) == Some(n),
        n > max ==> unsigned_of(dec(n as nat), max) is None,
        unsigned_of(Seq::<char>::empty(), max) is None,
        n < 0 ==> unsigned_of(dec_int(n), max) is None,
{
    if n >= 0 {
        crate::text::law_a_number_reads_as_it_is_written(n as nat, 0x7fff_ffff_ffff_ffff);
        lemma_dec(n as nat);
        assert(digit_value(dec(n as nat)[0]) is Some);
    } else {
        let d = dec((-n) as nat);
        lemma_dec((-n) as nat);
        let s = seq!['-'] + d;
        assert(s.drop_first() =~= d);
        assert(s[0] == '-');
        assert(digit_value(s[0]) is None);
    }
}

/// The texts in order: none stands before one that comes before it.
pub proof fn law_sorted_texts_are_in_order(v: Seq<Seq<char>>)
    ensures
        forall|i: int, j: int| 0 <= i < j < sorted(v).len() ==> not_after(#[trigger] sorted(v)[i], #[trigger] sorted(v)[j]),
    decreases v.len(),
{
    if v.len() > 0 {
        law_sorted_texts_are_in_order(v.drop_last());
        lemma_put_in_order(sorted(v.drop_last()), v.last());
    }
}

proof fn lemma_put_in_order(list: Seq<Seq<char>>, t: Seq<char>)
    requires
        forall|i: int, j: int| 0 <= i < j < list.len() ==> not_after(#[trigger] list[i], #[trigger] list[j]),
    ensures
        forall|i: int, j: int| 0 <= i < j < put_in(list, t).len() ==> not_after(#[trigger] put_in(list, t)[i], #[trigger] put_in(list, t)[j]),
        put_in(list, t).len() == list.len() + 1,
        forall|i: int| 0 <= i < put_in(list, t).len() ==> (#[trigger] put_in(list, t)[i]) == t || list.contains(put_in(list, t)[i]),
    decreases list.len(),
{
    let p = put_in(list, t);
    if list.len() == 0 {
    } else if not_after(list.last(), t) {
        assert forall|i: int, j: int| 0 <= i < j < p.len() implies not_after(#[trigger] p[i], #[trigger] p[j]) by {
            if j == list.len() {
                if i < list.len() - 1 {
                    assert(not_after(list[i], list[list.len() - 1]));
                    lemma_order_goes_on(list[i], list.last(), t);
                }
            }
        }
        assert forall|i: int| 0 <= i < p.len() implies (#[trigger] p[i]) == t || list.contains(p[i]) by {
            if i < list.len() {
                assert(list[i] == p[i]);
            }
        }
    } else {
        let before = list.drop_last();
        lemma_put_in_order(before, t);
        let q = put_in(before, t);
        lemma_order_is_total(list.last(), t);
        assert forall|i: int, j: int| 0 <= i < j < p.len() implies not_after(#[trigger] p[i], #[trigger] p[j]) by {
            if j < q.len() {
                assert(p[i] == q[i] && p[j] == q[j]);
            } else {
                assert(p[i] == q[i] && p[j] == list.last());
                if q[i] != t {
                    let k = choose|k: int| 0 <= k < before.len() && before[k] == q[i];
                    assert(not_after(list[k], list[list.len() - 1]));
                }
            }
        }
        assert forall|i: int| 0 <= i < p.len() implies (#[trigger] p[i]) == t || list.contains(p[i]) by {
            if i < q.len() {
                assert(q[i] == p[i]);
                if q[i] != t {
                    let k = choose|k: int| 0 <= k < before.len() && before[k] == q[i];
                    assert(list[k] == q[i]);
                }
            } else {
                assert(list[list.len() - 1] == p[i]);
            }
        }
    }
}

proof fn lemma_order_goes_on(a: Seq<char>, b: Seq<char>, c: Seq<char>)
    requires
        not_after(a, b),
        not_after(b, c),
    ensures
        not_after(a, c),
    decreases a.len(),
{
    if a.len() > 0 && b.len() > 0 && c.len() > 0 && a[0] == b[0] && b[0] == c[0] {
        lemma_order_goes_on(a.drop_first(), b.drop_first(), c.drop_first());
    }
}

proof fn lemma_order_is_total(a: Seq<char>, b: Seq<char>)
    ensures
        not_after(a, b) || not_after(b, a),
    decreases a.len(),
{
    if a.len() > 0 && b.len() > 0 {
        if a[0] == b[0] {
            lemma_order_is_total(a.drop_first(), b.drop_first());
        } else {
            lemma_codes(a[0], b[0]);
        }
    }
}

proof fn lemma_codes(x: char, y: char)
    ensures
        x == y || (x as u32) < (y as u32) || (y as u32) < (x as u32),
{
}

/// Texts are ordered by the first character in which they differ, and one that another begins with stands before it.
pub proof fn law_texts_are_ordered_by_their_first_difference(p: Seq<char>, a: char, b: char, x: Seq<char>, y: Seq<char>)
    ensures
        a < b ==> not_after(p + seq![a] + x, p + seq![b] + y) && !not_after(p + seq![b] + y, p + seq![a] + x),
        not_after(p, p + x),
        x.len() > 0 ==> !not_after(p + x, p),
    decreases p.len(),
{
    if p.len() == 0 {
        assert((p + seq![a] + x)[0] == a && (p + seq![b] + y)[0] == b);
    } else {
        let t = p.drop_first();
        law_texts_are_ordered_by_their_first_difference(t, a, b, x, y);
        assert((p + seq![a] + x).drop_first() =~= t + seq![a] + x);
        assert((p + seq![b] + y).drop_first() =~= t + seq![b] + y);
        assert((p + x).drop_first() =~= t + x);
    }
}

/// An address is four numbers of at most 255, each written plainly, with dots between them.
pub proof fn law_an_address_is_four_numbers(a: nat, b: nat, c: nat, d: nat)
    ensures
        a <= 255 && b <= 255 && c <= 255 && d <= 255 ==> is_ipv4(dec(a) + seq!['.'] + dec(b) + seq!['.'] + dec(c) + seq!['.'] + dec(d)),
        a > 255 ==> !is_ipv4(dec(a) + seq!['.'] + dec(b) + seq!['.'] + dec(c) + seq!['.'] + dec(d)),
        !is_ipv4(dec(a) + seq!['.'] + dec(b) + seq!['.'] + dec(c)),
        !is_ipv4(dec(a)),
{
    lemma_no_dot(a);
    lemma_no_dot(b);
    lemma_no_dot(c);
    lemma_no_dot(d);
    let cd = dec(c) + seq!['.'] + dec(d);
    let bcd = dec(b) + seq!['.'] + cd;
    let whole = dec(a) + seq!['.'] + bcd;
    assert(dec(a) + seq!['.'] + dec(b) + seq!['.'] + dec(c) + seq!['.'] + dec(d) =~= whole);
    law_a_text_is_cut_at_every_one(dec(a), '.', bcd);
    law_a_text_is_cut_at_every_one(dec(b), '.', cd);
    law_a_text_is_cut_at_every_one(dec(c), '.', dec(d));
    law_a_text_is_cut_at_every_one(dec(d), '.', seq![]);
    assert(parts(whole, '.') =~= seq![dec(a), dec(b), dec(c), dec(d)]);
    let bc = dec(b) + seq!['.'] + dec(c);
    let three = dec(a) + seq!['.'] + bc;
    assert(dec(a) + seq!['.'] + dec(b) + seq!['.'] + dec(c) =~= three);
    law_a_text_is_cut_at_every_one(dec(a), '.', bc);
    law_a_text_is_cut_at_every_one(dec(b), '.', dec(c));
    law_a_text_is_cut_at_every_one(dec(c), '.', seq![]);
    assert(parts(three, '.') =~= seq![dec(a), dec(b), dec(c)]);
    assert(parts(dec(a), '.').len() == 1);
    lemma_octet(a);
    lemma_octet(b);
    lemma_octet(c);
    lemma_octet(d);
}

proof fn lemma_no_dot(n: nat)
    ensures
        !dec(n).contains('.'),
{
    lemma_dec(n);
    if dec(n).contains('.') {
        let i = choose|i: int| 0 <= i < dec(n).len() && dec(n)[i] == '.';
        assert(digit_value(dec(n)[i]) is Some);
    }
}

proof fn lemma_octet(n: nat)
    ensures
        is_octet(dec(n)) <==> n <= 255,
{
    lemma_dec(n);
    if n <= 255 {
        reveal_with_fuel(dec, 4);
        if n >= 10 {
            assert(dec(n).len() >= 2);
            assert(dec(n)[0] != '0');
        }
    }
}

} // verus!
