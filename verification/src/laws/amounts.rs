//! Of quantities that are no whole number, and of letters that are told apart by no case.

use vstd::arithmetic::div_mod::lemma_fundamental_div_mod;
use vstd::arithmetic::power::{lemma_pow_positive, pow};
use vstd::prelude::*;

use crate::quantity::{decimal_times, exponent_at, exponent_of, fraction_part, held, rounded, unsigned_part, whole_part};
use crate::text::{all_digits, ascii_lower, digit_value, digits_value, first_at, lemma_first_at, same_letters};

verus! {

/// Two letters are the same but for their case where one is the other, or is as far above it as every capital is below its
/// small letter.
pub proof fn law_a_letter_is_the_same_in_either_case(a: char, b: char)
    ensures
        ascii_lower(a) == ascii_lower(b) <==> {
            ||| a == b
            ||| 'A' <= a <= 'Z' && b as int == a as int + 32
            ||| 'A' <= b <= 'Z' && a as int == b as int + 32
        },
        same_letters(seq![a], seq![b]) <==> ascii_lower(a) == ascii_lower(b),
{
    if 'A' <= a <= 'Z' {
        assert((((a as int) + 32) as char) as int == a as int + 32);
    }
    if 'A' <= b <= 'Z' {
        assert((((b as int) + 32) as char) as int == b as int + 32);
    }
    assert(seq![a][0] == a && seq![b][0] == b);
    if same_letters(seq![a], seq![b]) {
        assert(ascii_lower(seq![a][0]) == ascii_lower(seq![b][0]));
    }
}

/// Texts are the same but for case where they are so letter by letter, and of one length.
pub proof fn law_texts_are_the_same_letter_by_letter(a: Seq<char>, b: Seq<char>, x: char, y: char)
    ensures
        same_letters(a, a),
        same_letters(a, b) ==> a.len() == b.len() && same_letters(b, a),
        same_letters(a.push(x), b.push(y)) <==> same_letters(a, b) && ascii_lower(x) == ascii_lower(y),
{
    if same_letters(a, b) {
        assert forall|i: int| 0 <= i < b.len() implies ascii_lower(b[i]) == ascii_lower(#[trigger] a[i]) by {
            assert(ascii_lower(a[i]) == ascii_lower(b[i]));
        }
    }
    if same_letters(a.push(x), b.push(y)) {
        assert(a.push(x).len() == b.push(y).len());
        assert(b.push(y)[b.len() as int] == y && a.push(x)[a.len() as int] == x);
        assert forall|i: int| 0 <= i < a.len() implies ascii_lower(a[i]) == ascii_lower(#[trigger] b[i]) by {
            assert(b.push(y)[i] == b[i] && a.push(x)[i] == a[i]);
        }
    }
    if same_letters(a, b) && ascii_lower(x) == ascii_lower(y) {
        assert forall|i: int| 0 <= i < a.push(x).len() implies ascii_lower(a.push(x)[i]) == ascii_lower(#[trigger] b.push(y)[i]) by {
            if i < a.len() {
                assert(b.push(y)[i] == b[i]);
            }
        }
    }
}

/// What begins with a digit is no word.
proof fn lemma_no_word(s: Seq<char>)
    requires
        s.len() > 0,
        digit_value(s[0]) is Some,
    ensures
        !same_letters(s, "inf"@) && !same_letters(s, "infinity"@) && !same_letters(s, "nan"@),
{
    reveal_strlit("inf");
    reveal_strlit("infinity");
    reveal_strlit("nan");
    assert("inf"@[0] == 'i' && "infinity"@[0] == 'i' && "nan"@[0] == 'n');
}

/// A character that is no digit stands nowhere among digits.
proof fn lemma_not_among(s: Seq<char>, c: char)
    requires
        all_digits(s),
        digit_value(c) is None,
    ensures
        first_at(s, c) == s.len(),
{
    lemma_first_at(s, c);
    if first_at(s, c) < s.len() {
        assert(digit_value(s[first_at(s, c) as int]) is Some);
    }
}

/// A character stands first where it does behind a text that has none of it.
proof fn lemma_first_behind(a: Seq<char>, c: char, b: Seq<char>)
    requires
        first_at(a, c) == a.len(),
    ensures
        first_at(a.push(c) + b, c) == a.len(),
{
    lemma_first_at(a, c);
    let s = a.push(c) + b;
    lemma_first_at(s, c);
    assert(s[a.len() as int] == c);
    let i = first_at(s, c) as int;
    if i < a.len() {
        assert(s[i] == a[i]);
    }
}

/// A number with a fraction is taken times the unit to the nearest whole number, and half goes up.
pub proof fn law_a_fraction_counts_to_the_nearest(a: Seq<char>, b: Seq<char>, unit: nat, r: u64)
    requires
        a.len() > 0,
        b.len() > 0,
        all_digits(a),
        all_digits(b),
        decimal_times(a.push('.') + b, unit) == Some(r),
        r < u64::MAX,
    ensures
        ({
            let one = pow(10, b.len());
            let exact = 2 * digits_value(a + b) * unit;
            one > 0 && exact - one < 2 * r * one <= exact + one
        }),
{
    let s = a.push('.') + b;
    assert(s[0] == a[0]);
    assert(digit_value(a[0]) is Some);
    lemma_no_word(s);
    lemma_not_among(a, '.');
    lemma_first_behind(a, '.', b);
    lemma_first_at(s, 'e');
    lemma_first_at(s, 'E');
    assert forall|i: int| 0 <= i < s.len() implies s[i] != 'e' && s[i] != 'E' by {
        if i < a.len() {
            assert(s[i] == a[i] && digit_value(a[i]) is Some);
        } else if i > a.len() {
            assert(s[i] == b[i - a.len() - 1] && digit_value(b[i - a.len() - 1]) is Some);
        }
    }
    assert(exponent_at(s) == s.len());
    assert(s.take(s.len() as int) =~= s);
    assert(whole_part(s) =~= a);
    assert(fraction_part(s) =~= b);
    assert(all_digits(a + b)) by {
        assert forall|i: int| 0 <= i < (a + b).len() implies (#[trigger] digit_value((a + b)[i])) is Some by {
            if i < a.len() {
                assert(digit_value(a[i]) is Some);
            } else {
                assert(digit_value(b[i - a.len()]) is Some);
            }
        }
    }
    let one = pow(10, b.len());
    lemma_pow_positive(10, b.len());
    let d = digits_value(a + b);
    let n = 2 * d * unit + one;
    assert(r == rounded(d, -(b.len() as int), unit));
    assert(d * unit >= 0) by (nonlinear_arith)
        requires d >= 0, unit >= 0;
    assert(2 * d * unit == 2 * (d * unit)) by (nonlinear_arith);
    lemma_fundamental_div_mod(n, 2 * one);
    let q = n / (2 * one);
    assert(q >= 0) by (nonlinear_arith)
        requires q == n / (2 * one), n > 0, one > 0;
    assert(q == r);
    assert(2 * one * q == 2 * r * one) by (nonlinear_arith)
        requires q == r;
    assert(0 <= n % (2 * one) < 2 * one) by (nonlinear_arith)
        requires one > 0;
}

/// An exponent moves the point: so many digits and `e` and a number are the digits times that power of ten.
pub proof fn law_an_exponent_is_a_power_of_ten(a: Seq<char>, x: Seq<char>, unit: nat)
    requires
        a.len() > 0,
        x.len() > 0,
        all_digits(a),
        all_digits(x),
    ensures
        decimal_times(a.push('e') + x, unit) == Some(held((digits_value(a) * unit * pow(10, digits_value(x))) as nat)),
        decimal_times(a.push('E') + x, unit) == decimal_times(a.push('e') + x, unit),
{
    lemma_with_exponent(a, 'e', x, unit);
    lemma_with_exponent(a, 'E', x, unit);
}

proof fn lemma_with_exponent(a: Seq<char>, e: char, x: Seq<char>, unit: nat)
    requires
        a.len() > 0,
        x.len() > 0,
        all_digits(a),
        all_digits(x),
        e == 'e' || e == 'E',
    ensures
        decimal_times(a.push(e) + x, unit) == Some(held((digits_value(a) * unit * pow(10, digits_value(x))) as nat)),
{
    let s = a.push(e) + x;
    assert(s[0] == a[0]);
    assert(digit_value(a[0]) is Some && digit_value(x[0]) is Some);
    lemma_no_word(s);
    lemma_not_among(a, e);
    lemma_first_behind(a, e, x);
    lemma_first_at(s, 'e');
    lemma_first_at(s, 'E');
    assert forall|i: int| 0 <= i < s.len() && i != a.len() implies s[i] != 'e' && s[i] != 'E' by {
        if i < a.len() {
            assert(s[i] == a[i] && digit_value(a[i]) is Some);
        } else {
            assert(s[i] == x[i - a.len() - 1] && digit_value(x[i - a.len() - 1]) is Some);
        }
    }
    assert(exponent_at(s) == a.len());
    let m = s.take(a.len() as int);
    assert(m =~= a);
    lemma_not_among(a, '.');
    assert(whole_part(a) =~= a);
    assert(fraction_part(a) =~= Seq::<char>::empty());
    assert(a + Seq::<char>::empty() =~= a);
    assert(s.skip(a.len() as int + 1) =~= x);
    assert(unsigned_part(x) == x);
    assert(exponent_of(x) == Some(digits_value(x) as int));
}

/// A minus makes nothing of a number, and a plus nothing new; a word makes no number.
pub proof fn law_below_nothing_is_nothing(s: Seq<char>, unit: nat)
    requires
        s.len() > 0,
        digit_value(s[0]) is Some,
    ensures
        decimal_times(seq!['-'] + s, unit) is Some <==> decimal_times(s, unit) is Some,
        decimal_times(seq!['-'] + s, unit) matches Some(n) ==> n == 0,
        decimal_times(seq!['+'] + s, unit) == decimal_times(s, unit),
        decimal_times("inf"@, unit) is None,
        decimal_times("nan"@, unit) is None,
        decimal_times(seq![], unit) is None,
{
    assert((seq!['-'] + s).skip(1) =~= s);
    assert((seq!['+'] + s).skip(1) =~= s);
    assert((seq!['-'] + s)[0] == '-');
    assert((seq!['+'] + s)[0] == '+');
    assert(unsigned_part(s) == s);
    reveal_strlit("inf");
    reveal_strlit("nan");
    reveal_strlit("infinity");
    assert("inf"@[0] == 'i' && "nan"@[0] == 'n');
    assert(same_letters("inf"@, "inf"@));
    assert(same_letters("nan"@, "nan"@));
    let none = Seq::<char>::empty();
    assert(unsigned_part(none) == none);
    assert(none.take(0) =~= none);
    assert(whole_part(none) + fraction_part(none) =~= none) by {
        assert(none.take(first_at(none, '.') as int) =~= none);
    }
}

} // verus!
