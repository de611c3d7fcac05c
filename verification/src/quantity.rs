//! Quantities as a cluster writes them: cpu in cores or millicores, memory in bytes with a suffix.
//!
//! Only as much of the format as it takes to compare two spellings of one number. The arithmetic is
//! exact: the decimal that is written, times the unit, rounded to a whole number half away from
//! zero, and held to what fits.

use vstd::arithmetic::power::{lemma_pow1, lemma_pow_adds, lemma_pow_increases, lemma_pow_positive, pow};
use vstd::prelude::*;

use crate::text::{
    all_digits, before_suffix, chars_of, dec, digit_value, digits_from, digits_value, ends, eq_ignore_ascii_case, find_from,
    first_at, is_white, law_a_number_reads_as_it_is_written, lemma_dec, lemma_first_at, parse_up_to, piece, read_digits,
    same_letters, strip_suffix, trim, trim_front, trimmed, unsigned_of, value_of,
};

verus! {

/// What a decimal literal without its sign writes.
pub enum Number {
    Nan,
    Infinite,
    /// `digits` times ten to the power `scale`.
    Finite { digits: nat, scale: int },
}

/// Where the exponent of a literal begins, or its length.
pub open spec fn exponent_at(t: Seq<char>) -> nat {
    let small = first_at(t, 'e');
    let large = first_at(t, 'E');
    if small <= large { small } else { large }
}

/// A text without its sign.
pub open spec fn unsigned_part(s: Seq<char>) -> Seq<char> {
    if s.len() > 0 && (s[0] == '+' || s[0] == '-') { s.skip(1) } else { s }
}

pub open spec fn is_negative(s: Seq<char>) -> bool {
    s.len() > 0 && s[0] == '-'
}

/// What an exponent writes: a sign or none, and digits.
pub open spec fn exponent_of(x: Seq<char>) -> Option<int> {
    let d = unsigned_part(x);
    if d.len() == 0 || !all_digits(d) {
        None
    } else if is_negative(x) {
        Some(-(digits_value(d) as int))
    } else {
        Some(digits_value(d) as int)
    }
}

/// The digits before the point of a mantissa.
pub open spec fn whole_part(m: Seq<char>) -> Seq<char> {
    m.take(first_at(m, '.') as int)
}

/// The digits after it.
pub open spec fn fraction_part(m: Seq<char>) -> Seq<char> {
    if first_at(m, '.') < m.len() { m.skip(first_at(m, '.') as int + 1) } else { seq![] }
}

/// What a literal without its sign writes, where it is one: digits with at most one point among them,
/// and an exponent or none; or a word for what is no number or no finite one.
pub open spec fn number_of(t: Seq<char>) -> Option<Number> {
    if same_letters(t, "inf"@) || same_letters(t, "infinity"@) {
        Some(Number::Infinite)
    } else if same_letters(t, "nan"@) {
        Some(Number::Nan)
    } else {
        let at = exponent_at(t);
        let mantissa = t.take(at as int);
        let digits = whole_part(mantissa) + fraction_part(mantissa);
        let exponent = if at < t.len() { exponent_of(t.skip(at as int + 1)) } else { Some(0) };
        match exponent {
            Some(x) if digits.len() > 0 && all_digits(digits) => Some(
                Number::Finite { digits: digits_value(digits), scale: x - fraction_part(mantissa).len() },
            ),
            _ => None,
        }
    }
}

/// `digits` times ten to the power `scale`, times `unit`, rounded half up to a whole number.
pub open spec fn rounded(digits: nat, scale: int, unit: nat) -> nat {
    if scale >= 0 {
        (digits * unit * pow(10, scale as nat)) as nat
    } else {
        ((2 * digits * unit + pow(10, (-scale) as nat)) / (2 * pow(10, (-scale) as nat))) as nat
    }
}

/// A number held to what 64 bits hold.
pub open spec fn held(n: nat) -> u64 {
    if n <= u64::MAX { n as u64 } else { u64::MAX }
}

/// The whole number nearest to what a literal writes, times `unit`: nothing of what is no number or
/// no finite one, zero of a negative one, and the largest of one that does not fit.
pub open spec fn decimal_times(s: Seq<char>, unit: nat) -> Option<u64> {
    match number_of(unsigned_part(s)) {
        None | Some(Number::Nan) | Some(Number::Infinite) => None,
        Some(Number::Finite { digits, scale }) => Some(if is_negative(s) { 0u64 } else { held(rounded(digits, scale, unit)) }),
    }
}

/// The digits of two runs, one behind the other.
proof fn lemma_digits_join(a: Seq<char>, b: Seq<char>)
    ensures
        digits_value(a + b) == digits_value(a) * pow(10, b.len()) + digits_value(b),
    decreases b.len(),
{
    if b.len() == 0 {
        assert(a + b =~= a);
        reveal(pow);
    } else {
        lemma_digits_join(a, b.drop_last());
        assert((a + b).drop_last() =~= a + b.drop_last());
        assert((a + b).last() == b.last());
        let p = pow(10, b.drop_last().len());
        assert(pow(10, b.len()) == 10 * p) by {
            lemma_pow1(10);
            lemma_pow_adds(10, 1, (b.len() - 1) as nat);
        }
        let x = digits_value(a) as int;
        let y = digits_value(b.drop_last()) as int;
        assert((x * p + y) * 10 == x * (10 * p) + y * 10) by (nonlinear_arith);
    }
}

/// A long multiplication's one step: `low` and `carry` are the product of the digits so far, and
/// `digit` is the next.
proof fn lemma_carried(low_digits: int, digit: int, unit: int, p: int, carry: int, low: int, next: int, rem: int)
    requires
        low_digits * unit == carry * p + low,
        digit * unit + carry == next * 10 + rem,
    ensures
        (digit * p + low_digits) * unit == next * (10 * p) + (rem * p + low),
{
    assert((digit * p + low_digits) * unit == (digit * unit + carry) * p + low) by (nonlinear_arith)
        requires
            low_digits * unit == carry * p + low,
    ;
    assert((next * 10 + rem) * p == next * (10 * p) + rem * p) by (nonlinear_arith);
}

/// Rounding a product whose whole part and whose rest are known.
proof fn lemma_rounded(whole: int, low: int, p: int)
    requires
        p > 0,
        0 <= low < p,
        whole >= 0,
    ensures
        (2 * (whole * p + low) + p) / (2 * p) == if 2 * low >= p { whole + 1 } else { whole },
{
    let q: int = if 2 * low >= p { whole + 1 } else { whole };
    let r = 2 * (whole * p + low) + p - q * (2 * p);
    assert(0 <= r < 2 * p) by (nonlinear_arith)
        requires
            p > 0,
            0 <= low < p,
            q == (if 2 * low >= p { whole + 1 } else { whole }),
            r == 2 * (whole * p + low) + p - q * (2 * p),
    ;
    vstd::arithmetic::div_mod::lemma_fundamental_div_mod_converse(2 * (whole * p + low) + p, 2 * p, q, r);
}

/// The first `n` of some characters.
fn head_of(v: &Vec<char>, n: usize) -> (r: Vec<char>)
    requires
        n <= v@.len(),
    ensures
        r@ == v@.take(n as int),
{
    let mut r: Vec<char> = Vec::new();
    let mut i: usize = 0;
    while i < n
        invariant
            i <= n <= v@.len(),
            r@ == v@.take(i as int),
        decreases n - i,
    {
        proof {
            assert(v@.take(i + 1) =~= v@.take(i as int).push(v@[i as int]));
        }
        r.push(v[i]);
        i = i + 1;
    }
    r
}

/// The whole number of a run of digits, times `unit`, and `more` on top, held to what fits.
fn whole_times(v: &Vec<char>, unit: u64, more: u64) -> (r: u64)
    requires
        all_digits(v@),
        1 <= unit <= 0x100_0000_0000,
        more <= unit,
    ensures
        r == held((digits_value(v@) * unit + more) as nat),
{
    proof {
        assert(v@.skip(0) =~= v@);
    }
    if v.len() == 0 {
        proof {
            assert(0 * unit == 0) by (nonlinear_arith);
        }
        return more;
    }
    match read_digits(v, 0, u64::MAX) {
        None => {
            proof {
                let d = digits_value(v@);
                assert(d * unit >= d) by (nonlinear_arith)
                    requires
                        unit >= 1,
                ;
            }
            u64::MAX
        },
        Some(n) => {
            proof {
                assert((n as int) * (unit as int) <= 0xffff_ffff_ffff_ffff * 0x100_0000_0000) by (nonlinear_arith)
                    requires
                        0 <= n <= 0xffff_ffff_ffff_ffff,
                        0 <= unit <= 0x100_0000_0000,
                ;
            }
            let all: u128 = (n as u128) * (unit as u128) + (more as u128);
            if all > u64::MAX as u128 { u64::MAX } else { all as u64 }
        },
    }
}

/// A number with its digits moved up `up` places, held to what fits.
fn moved_up(n: u64, up: u128) -> (r: u64)
    ensures
        r == held((n * pow(10, up as nat)) as nat),
{
    let mut cur: u128 = n as u128;
    let mut i: u128 = 0;
    proof {
        reveal(pow);
    }
    while i < up && 0 < cur && cur <= 0xffff_ffff_ffff_ffff
        invariant
            i <= up,
            cur == n * pow(10, i as nat),
            cur <= 10 * 0xffff_ffff_ffff_ffff,
        decreases up - i,
    {
        proof {
            let p = pow(10, i as nat);
            assert(pow(10, (i + 1) as nat) == 10 * p) by {
                lemma_pow1(10);
                lemma_pow_adds(10, 1, i as nat);
            }
            assert(n * (10 * p) == (n * p) * 10) by (nonlinear_arith);
        }
        cur = cur * 10;
        i = i + 1;
    }
    proof {
        lemma_pow_increases(10, i as nat, up as nat);
        lemma_pow_positive(10, i as nat);
        let p = pow(10, i as nat);
        let q = pow(10, up as nat);
        assert(n * q >= n * p) by (nonlinear_arith)
            requires
                q >= p,
                n >= 0,
        ;
        if n == 0 {
            assert(n * q == 0) by (nonlinear_arith)
                requires
                    n == 0,
            ;
        }
        if cur == 0 {
            assert(n == 0) by (nonlinear_arith)
                requires
                    n * p == 0,
                    p > 0,
            ;
        }
    }
    if cur > 0xffff_ffff_ffff_ffff { u64::MAX } else { cur as u64 }
}

/// A run of digits with its last `down` behind the point, times `unit`, rounded and held to what fits.
/// The digits behind the point are multiplied from the last to the first, as on paper: what is carried
/// out of the first belongs to the whole part, and the digit left there decides the rounding.
fn moved_down(v: &Vec<char>, down: u128, unit: u64) -> (r: u64)
    requires
        all_digits(v@),
        down > 0,
        1 <= unit <= 0x100_0000_0000,
    ensures
        r == held(rounded(digits_value(v@), -(down as int), unit as nat)),
{
    let mut carry: u64 = 0;
    let mut rem: u64 = 0;
    let mut i: u128 = 0;
    let n: u128 = v.len() as u128;
    let ghost mut low: int = 0;
    let ghost all = v@;
    proof {
        reveal(pow);
        assert(all.skip(all.len() as int) =~= Seq::<char>::empty());
        assert(digits_value(all.skip(n - i)) == 0);
        assert(0 * unit == 0 && 0 * pow(10, 0) == 0) by (nonlinear_arith);
        assert(n <= usize::MAX);
    }
    while i < down && !(i >= n && carry == 0)
        invariant
            n == v@.len(),
            n <= usize::MAX,
            all == v@,
            all_digits(all),
            i <= down,
            1 <= unit <= 0x100_0000_0000,
            carry < unit,
            rem < 10,
            ({
                let seen = if i <= n { digits_value(all.skip(n - i)) } else { digits_value(all) };
                seen * unit == carry * pow(10, i as nat) + low
            }),
            0 <= low < pow(10, i as nat),
            i > 0 ==> rem * pow(10, (i - 1) as nat) <= low < (rem + 1) * pow(10, (i - 1) as nat),
        decreases down - i,
    {
        let ghost p = pow(10, i as nat);
        let ghost seen = if i <= n { digits_value(all.skip(n - i)) } else { digits_value(all) };
        let digit: u64 = if i < n {
            let at: usize = (n - 1 - i) as usize;
            proof {
                let tail = all.skip(n - i);
                let one = seq![all[at as int]];
                assert(all.skip(n - i - 1) =~= one + tail);
                lemma_digits_join(one, tail);
                assert(digit_value(all[at as int]) is Some);
                assert(one.drop_last() =~= Seq::<char>::empty());
                assert(digits_value(one) == digit_value(all[at as int])->0) by {
                    reveal_with_fuel(digits_value, 2);
                }
            }
            match value_of(v[at]) {
                Some(x) => x,
                None => 0,
            }
        } else {
            0
        };
        proof {
            assert(digit * unit <= 9 * 0x100_0000_0000) by (nonlinear_arith)
                requires
                    0 <= digit <= 9,
                    0 <= unit <= 0x100_0000_0000,
            ;
            assert(digit * unit <= 9 * unit) by (nonlinear_arith)
                requires
                    0 <= digit <= 9,
                    0 <= unit,
            ;
        }
        let t: u64 = digit * unit + carry;
        let next: u64 = t / 10;
        let left: u64 = t % 10;
        proof {
            assert(pow(10, (i + 1) as nat) == 10 * p) by {
                lemma_pow1(10);
                lemma_pow_adds(10, 1, i as nat);
            }
            lemma_carried(seen as int, digit as int, unit as int, p, carry as int, low, next as int, left as int);
            let now = if i + 1 <= n { digits_value(all.skip(n - (i + 1))) } else { digits_value(all) };
            if i >= n {
                assert(all.skip(0) =~= all);
                assert(0 * p == 0) by (nonlinear_arith);
            }
            assert(now == digit * p + seen);
            assert(now * unit == next * pow(10, (i + 1) as nat) + (left * p + low));
            assert(left * p + low < 10 * p && left * p <= left * p + low < (left + 1) * p) by (nonlinear_arith)
                requires
                    0 <= left < 10,
                    0 <= low < p,
            ;
            assert(0 <= left * p) by (nonlinear_arith)
                requires
                    0 <= left,
                    0 <= low < p,
            ;
            low = left * p + low;
        }
        carry = next;
        rem = left;
        i = i + 1;
    }
    let ghost p = pow(10, down as nat);
    let ghost d = digits_value(all);
    if i < down {
        proof {
            lemma_pow_increases(10, i as nat, (down - 1) as nat);
            assert(p == 10 * pow(10, (down - 1) as nat)) by {
                lemma_pow1(10);
                lemma_pow_adds(10, 1, (down - 1) as nat);
            }
            if i == n {
                assert(all.skip(0) =~= all);
            }
            assert(carry * pow(10, i as nat) == 0) by (nonlinear_arith)
                requires
                    carry == 0,
            ;
            assert(d * unit == 0 * p + low);
            lemma_rounded(0, low, p);
            assert(2 * d * unit == 2 * (0 * p + low)) by (nonlinear_arith)
                requires
                    d * unit == 0 * p + low,
            ;
        }
        return 0;
    }
    let up: u64 = if rem >= 5 { 1 } else { 0 };
    let kept: usize = if down >= n { 0 } else { (n - down) as usize };
    let head = head_of(v, kept);
    proof {
        let q = pow(10, (down - 1) as nat);
        assert(p == 10 * q) by {
            lemma_pow1(10);
            lemma_pow_adds(10, 1, (down - 1) as nat);
        }
        lemma_pow_positive(10, down as nat);
        assert((2 * low >= p) == (rem >= 5)) by (nonlinear_arith)
            requires
                rem * q <= low < (rem + 1) * q,
                p == 10 * q,
                q > 0 || p > 0,
                0 <= rem < 10,
        ;
        let h = digits_value(head@);
        if down < n {
            lemma_digits_join(all.take(n - down), all.skip(n - down));
            assert(all.take(n - down) + all.skip(n - down) =~= all);
            let seen = digits_value(all.skip(n - down));
            assert(d == h * p + seen);
            assert(d * unit == (h * unit + carry) * p + low) by (nonlinear_arith)
                requires
                    d == h * p + seen,
                    seen * unit == carry * p + low,
            ;
        } else {
            if down == n {
                assert(all.skip(0) =~= all);
            }
            assert(h == 0);
            assert(h * unit == 0) by (nonlinear_arith)
                requires
                    h == 0,
            ;
        }
        assert(h * unit >= 0) by (nonlinear_arith);
        lemma_rounded(h * unit + carry, low, p);
        assert(2 * d * unit == 2 * ((h * unit + carry) * p + low)) by (nonlinear_arith)
            requires
                d * unit == (h * unit + carry) * p + low,
        ;
        assert forall|k: int| 0 <= k < head@.len() implies (#[trigger] digit_value(head@[k])) is Some by {
            assert(head@[k] == all[k]);
            assert(digit_value(all[k]) is Some);
        }
    }
    whole_times(&head, unit, carry + up)
}

/// An exponent as it is written, its size held to `EXPONENT_CAP`.
const EXPONENT_CAP: u128 = 0x1_0000_0000_0000_0000_0000;

fn capped_digits(v: &Vec<char>, from: usize) -> (r: u128)
    requires
        from <= v@.len(),
        all_digits(v@.skip(from as int)),
    ensures
        r == if digits_value(v@.skip(from as int)) <= EXPONENT_CAP { digits_value(v@.skip(from as int)) } else { EXPONENT_CAP as nat },
{
    let ghost d = v@.skip(from as int);
    let mut r: u128 = 0;
    let mut i: usize = from;
    proof {
        assert(d.take(0) =~= Seq::<char>::empty());
    }
    while i < v.len()
        invariant
            from <= i <= v@.len(),
            d == v@.skip(from as int),
            all_digits(d),
            r == if digits_value(d.take(i - from)) <= EXPONENT_CAP { digits_value(d.take(i - from)) } else { EXPONENT_CAP as nat },
        decreases v.len() - i,
    {
        proof {
            assert(d.take(i - from + 1).drop_last() =~= d.take(i - from));
            assert(d.take(i - from + 1).last() == v@[i as int]);
            assert(d[i - from] == v@[i as int]);
            assert(digit_value(d[i - from]) is Some);
        }
        let x: u64 = match value_of(v[i]) {
            Some(x) => x,
            None => 0,
        };
        let next: u128 = r * 10 + (x as u128);
        r = if next > EXPONENT_CAP { EXPONENT_CAP } else { next };
        i = i + 1;
    }
    proof {
        assert(d.take(d.len() as int) =~= d);
    }
    r
}

/// A run of digits a long way behind the point is nothing.
proof fn lemma_far_down(v: Seq<char>, unit: nat, down: nat, further: nat)
    requires
        all_digits(v),
        1 <= unit <= 0x100_0000_0000,
        v.len() + 20 <= down <= further,
    ensures
        rounded(digits_value(v), -(down as int), unit) == 0,
        rounded(digits_value(v), -(further as int), unit) == 0,
{
    lemma_digits_below(v);
    let d = digits_value(v);
    let q = pow(10, v.len());
    lemma_pow_adds(10, v.len(), 20);
    assert(pow(10, 20) >= 0x400_0000_0000) by {
        lemma_pow_adds(10, 10, 10);
        assert(pow(10, 10) == 10_000_000_000) by {
            reveal_with_fuel(pow, 11);
        }
    }
    lemma_pow_increases(10, v.len() + 20, down);
    lemma_pow_increases(10, down, further);
    assert(4 * d * unit < q * pow(10, 20)) by (nonlinear_arith)
        requires
            0 <= d < q,
            1 <= unit <= 0x100_0000_0000,
            pow(10, 20) >= 0x400_0000_0000,
    ;
    let p = pow(10, down);
    let r = pow(10, further);
    assert(d * unit >= 0) by (nonlinear_arith);
    assert(4 * d * unit == 4 * (d * unit)) by (nonlinear_arith);
    assert(2 * d * unit == 2 * (0 * p + d * unit)) by (nonlinear_arith);
    assert(2 * d * unit == 2 * (0 * r + d * unit)) by (nonlinear_arith);
    lemma_rounded(0, (d * unit) as int, p);
    lemma_rounded(0, (d * unit) as int, r);
}

/// A run of digits writes less than its length allows.
proof fn lemma_digits_below(v: Seq<char>)
    requires
        all_digits(v),
    ensures
        digits_value(v) < pow(10, v.len()),
    decreases v.len(),
{
    if v.len() == 0 {
        reveal(pow);
    } else {
        let head = v.drop_last();
        assert forall|k: int| 0 <= k < head.len() implies (#[trigger] digit_value(head[k])) is Some by {
            assert(digit_value(v[k]) is Some);
        }
        lemma_digits_below(head);
        assert(digit_value(v[v.len() - 1]) is Some);
        lemma_pow1(10);
        lemma_pow_adds(10, 1, head.len());
    }
}

/// A number a long way up does not fit, unless it is zero.
proof fn lemma_far_up(d: nat, unit: nat, up: nat, further: nat)
    requires
        1 <= unit,
        20 <= up <= further,
    ensures
        held(rounded(d, up as int, unit)) == held(rounded(d, further as int, unit)),
{
    lemma_pow_increases(10, 20, up);
    lemma_pow_increases(10, up, further);
    assert(pow(10, 20) > 0xffff_ffff_ffff_ffff) by {
        lemma_pow_adds(10, 10, 10);
        assert(pow(10, 10) == 10_000_000_000) by {
            reveal_with_fuel(pow, 11);
        }
    }
    let p = pow(10, up);
    let q = pow(10, further);
    let n = d * unit;
    if d == 0 {
        assert(n == 0) by (nonlinear_arith)
            requires
                d == 0,
                n == d * unit,
        ;
        assert(n * p == 0 && n * q == 0) by (nonlinear_arith)
            requires
                n == 0,
        ;
    } else {
        assert(n >= 1) by (nonlinear_arith)
            requires
                d >= 1,
                unit >= 1,
                n == d * unit,
        ;
        assert(n * p >= p && n * q >= q) by (nonlinear_arith)
            requires
                n >= 1,
                p >= 0,
                q >= 0,
        ;
    }
}

/// Digits times ten to the power `exponent - behind`, times `unit`: rounded, and held to what fits.
/// `exponent` is how far the point is moved, to the left where `left`.
fn placed(v: &Vec<char>, behind: usize, exponent: u128, left: bool, unit: u64) -> (r: u64)
    requires
        all_digits(v@),
        behind <= v@.len(),
        exponent <= EXPONENT_CAP,
        1 <= unit <= 0x100_0000_0000,
    ensures
        r == held(
            rounded(digits_value(v@), (if left { -(exponent as int) } else { exponent as int }) - behind, unit as nat),
        ),
{
    if left || exponent < behind as u128 {
        let down: u128 = if left { exponent + behind as u128 } else { behind as u128 - exponent };
        if down == 0 {
            proof {
                reveal(pow);
                let d = digits_value(v@);
                assert(d * unit * 1 == d * unit + 0) by (nonlinear_arith);
            }
            return whole_times(v, unit, 0);
        }
        return moved_down(v, down, unit);
    }
    let up: u128 = exponent - behind as u128;
    match whole_or_more(v, unit) {
        None => {
            proof {
                let d = digits_value(v@);
                let p = pow(10, up as nat);
                lemma_pow_positive(10, up as nat);
                assert(d * unit * p >= d * unit) by (nonlinear_arith)
                    requires
                        d >= 0,
                        unit >= 1,
                        p >= 1,
                ;
            }
            u64::MAX
        },
        Some(n) => moved_up(n, up),
    }
}

/// The whole number of a run of digits, times `unit`, where it fits.
fn whole_or_more(v: &Vec<char>, unit: u64) -> (r: Option<u64>)
    requires
        all_digits(v@),
        1 <= unit <= 0x100_0000_0000,
    ensures
        match r {
            Some(n) => n == digits_value(v@) * unit,
            None => digits_value(v@) * unit > u64::MAX,
        },
{
    proof {
        assert(v@.skip(0) =~= v@);
    }
    if v.len() == 0 {
        proof {
            assert(0 * unit == 0) by (nonlinear_arith);
        }
        return Some(0);
    }
    match read_digits(v, 0, u64::MAX) {
        None => {
            proof {
                let d = digits_value(v@);
                assert(d * unit >= d) by (nonlinear_arith)
                    requires
                        unit >= 1,
                ;
            }
            None
        },
        Some(n) => {
            proof {
                assert((n as int) * (unit as int) <= 0xffff_ffff_ffff_ffff * 0x100_0000_0000) by (nonlinear_arith)
                    requires
                        0 <= n <= 0xffff_ffff_ffff_ffff,
                        0 <= unit <= 0x100_0000_0000,
                ;
            }
            let all: u128 = (n as u128) * (unit as u128);
            if all > u64::MAX as u128 { None } else { Some(all as u64) }
        },
    }
}

/// The characters before and after the point of a mantissa, and how many are after it.
fn mantissa_digits(m: &Vec<char>) -> (r: (Vec<char>, usize))
    ensures
        r.0@ == whole_part(m@) + fraction_part(m@),
        r.1 == fraction_part(m@).len(),
{
    proof {
        assert(m@.skip(0) =~= m@);
        lemma_first_at(m@, '.');
    }
    let at: usize = find_from(m, '.', 0);
    let mut r: Vec<char> = Vec::new();
    let mut i: usize = 0;
    while i < m.len()
        invariant
            at == first_at(m@, '.'),
            at <= m@.len(),
            i <= m@.len(),
            r@ == if i <= at { m@.take(i as int) } else { whole_part(m@) + m@.subrange(at + 1, i as int) },
        decreases m.len() - i,
    {
        proof {
            if i < at {
                assert(m@.take(i + 1) =~= m@.take(i as int).push(m@[i as int]));
            } else if i == at {
                assert(m@.subrange(at + 1, i + 1) =~= Seq::<char>::empty());
                assert(whole_part(m@) + m@.subrange(at + 1, i + 1) =~= m@.take(i as int));
            } else {
                assert(whole_part(m@) + m@.subrange(at + 1, i + 1) =~= (whole_part(m@) + m@.subrange(at + 1, i as int)).push(
                    m@[i as int],
                ));
            }
        }
        if i != at {
            r.push(m[i]);
        }
        i = i + 1;
    }
    let behind: usize = if at < m.len() { m.len() - at - 1 } else { 0 };
    proof {
        if at < m@.len() {
            assert(m@.subrange(at + 1, m@.len() as int) =~= m@.skip(at + 1));
        } else {
            assert(whole_part(m@) + fraction_part(m@) =~= m@.take(m@.len() as int));
        }
    }
    (r, behind)
}

/// An exponent, its size held to `EXPONENT_CAP`, and whether it is negative.
fn exponent(body: &Vec<char>, from: usize) -> (r: Option<(u128, bool)>)
    requires
        from <= body@.len(),
    ensures
        ({
            let x = body@.skip(from as int);
            let d = unsigned_part(x);
            match r {
                None => exponent_of(x) is None,
                Some((n, left)) => exponent_of(x) is Some && left == is_negative(x) && n == if digits_value(d) <= EXPONENT_CAP {
                    digits_value(d)
                } else {
                    EXPONENT_CAP as nat
                },
            }
        }),
{
    let ghost x = body@.skip(from as int);
    let left = from < body.len() && body[from] == '-';
    let first: usize = if from < body.len() && (body[from] == '+' || body[from] == '-') { from + 1 } else { from };
    proof {
        assert(from < body@.len() ==> x[0] == body@[from as int]);
        assert(body@.skip(first as int) =~= unsigned_part(x));
    }
    if first == body.len() || !digits_from(body, first) {
        return None;
    }
    Some((capped_digits(body, first), left))
}

/// What the exponent is beyond the cap makes no difference.
proof fn lemma_capped(digits: Seq<char>, behind: nat, full: nat, left: bool, unit: nat)
    requires
        all_digits(digits),
        behind <= digits.len() <= usize::MAX,
        full > EXPONENT_CAP,
        1 <= unit <= 0x100_0000_0000,
    ensures
        held(rounded(digits_value(digits), (if left { -(full as int) } else { full as int }) - behind, unit)) == held(
            rounded(digits_value(digits), (if left { -(EXPONENT_CAP as int) } else { EXPONENT_CAP as int }) - behind, unit),
        ),
{
    if left {
        lemma_far_down(digits, unit, (EXPONENT_CAP + behind) as nat, full + behind);
    } else {
        lemma_far_up(digits_value(digits), unit, (EXPONENT_CAP - behind) as nat, (full - behind) as nat);
    }
}

/// What a literal without its sign comes to, times `unit`, where it is one of digits.
fn finite_times(body: &Vec<char>, unit: u64) -> (r: Option<u64>)
    requires
        1 <= unit <= 0x100_0000_0000,
        !same_letters(body@, "inf"@),
        !same_letters(body@, "infinity"@),
        !same_letters(body@, "nan"@),
    ensures
        match number_of(body@) {
            Some(Number::Finite { digits, scale }) => r == Some(held(rounded(digits, scale, unit as nat))),
            _ => r is None && number_of(body@) is None,
        },
{
    proof {
        assert(body@.skip(0) =~= body@);
        lemma_first_at(body@, 'e');
        lemma_first_at(body@, 'E');
    }
    let small: usize = find_from(body, 'e', 0);
    let large: usize = find_from(body, 'E', 0);
    let at: usize = if small <= large { small } else { large };
    let mantissa = head_of(body, at);
    let (digits, behind) = mantissa_digits(&mantissa);
    proof {
        assert(digits@.skip(0) =~= digits@);
        assert(digits@.len() <= usize::MAX);
    }
    let (size, left): (u128, bool) = if at < body.len() {
        match exponent(body, at + 1) {
            None => {
                return None;
            },
            Some(x) => x,
        }
    } else {
        (0, false)
    };
    if digits.len() == 0 || !digits_from(&digits, 0) {
        return None;
    }
    proof {
        let full = digits_value(unsigned_part(body@.skip(at + 1)));
        if at < body@.len() && full > EXPONENT_CAP {
            lemma_capped(digits@, behind as nat, full, left, unit as nat);
        }
    }
    Some(placed(&digits, behind, size, left, unit))
}

/// The whole number nearest to what a text writes, times `unit`.
pub fn times(s: &str, unit: u64) -> (r: Option<u64>)
    requires
        1 <= unit <= 0x100_0000_0000,
    ensures
        r == decimal_times(s@, unit as nat),
{
    let v = chars_of(s);
    let negative = v.len() > 0 && v[0] == '-';
    let start: usize = if v.len() > 0 && (v[0] == '+' || v[0] == '-') { 1 } else { 0 };
    proof {
        assert(v@.subrange(start as int, v@.len() as int) =~= unsigned_part(s@));
    }
    let text = piece(&v, start, v.len());
    let t = text.as_str();
    if eq_ignore_ascii_case(t, "inf") || eq_ignore_ascii_case(t, "infinity") {
        return None;
    }
    if eq_ignore_ascii_case(t, "nan") {
        return None;
    }
    match finite_times(&chars_of(t), unit) {
        None => None,
        Some(n) => Some(if negative { 0 } else { n }),
    }
}

/// A cpu quantity in millicores.
pub open spec fn millis_of(q: Seq<char>) -> Option<u64> {
    match before_suffix(trimmed(q), "m"@) {
        Some(n) => match unsigned_of(n, u64::MAX as nat) {
            Some(n) => Some(n as u64),
            None => None,
        },
        None => decimal_times(trimmed(q), 1_000),
    }
}

pub fn millis(q: &str) -> (r: Option<u64>)
    ensures
        r == millis_of(q@),
{
    let q = trim(q);
    match strip_suffix(q.as_str(), "m") {
        Some(n) => parse_up_to(n.as_str(), u64::MAX),
        None => times(q.as_str(), 1_000),
    }
}

/// The units a memory quantity may end in, in the order they are tried.
pub const SUFFIXES: [&'static str; 7] = ["Ki", "Mi", "Gi", "Ti", "K", "M", "G"];

pub const UNITS: [u64; 7] = [1_024, 1_048_576, 1_073_741_824, 1_099_511_627_776, 1_000, 1_000_000, 1_000_000_000];

/// A memory quantity in bytes, by the first suffix it has from the `from`th on.
pub open spec fn bytes_from(q: Seq<char>, from: nat) -> Option<u64>
    decreases 7 - from,
{
    if from >= 7 {
        decimal_times(q, 1)
    } else {
        match before_suffix(q, SUFFIXES[from as int]@) {
            Some(n) => decimal_times(n, UNITS[from as int] as nat),
            None => bytes_from(q, from + 1),
        }
    }
}

/// A memory quantity in bytes.
pub open spec fn bytes_of(q: Seq<char>) -> Option<u64> {
    bytes_from(trimmed(q), 0)
}

pub fn bytes(q: &str) -> (r: Option<u64>)
    ensures
        r == bytes_of(q@),
{
    let t = trim(q);
    let mut i: usize = 0;
    while i < 7
        invariant
            i <= 7,
            t@ == trimmed(q@),
            bytes_from(t@, 0) == bytes_from(t@, i as nat),
        decreases 7 - i,
    {
        if let Some(n) = strip_suffix(t.as_str(), SUFFIXES[i]) {
            return times(n.as_str(), UNITS[i]);
        }
        i = i + 1;
    }
    times(t.as_str(), 1)
}

/// A run of digits is trimmed already, and so is one with something behind it that is no space.
proof fn lemma_trimmed(s: Seq<char>)
    requires
        s.len() > 0,
        digit_value(s[0]) is Some,
        !is_white(s.last()),
    ensures
        trimmed(s) == s,
{
    assert(trim_front(s) == s);
}

/// Digits write a whole number.
proof fn lemma_whole(s: Seq<char>, unit: nat)
    requires
        s.len() > 0,
        all_digits(s),
    ensures
        decimal_times(s, unit) == Some(held((digits_value(s) * unit) as nat)),
{
    assert(digit_value(s[0]) is Some);
    reveal_strlit("inf");
    reveal_strlit("infinity");
    reveal_strlit("nan");
    assert(unsigned_part(s) == s);
    assert(!same_letters(s, "inf"@)) by {
        assert("inf"@[0] == 'i');
    }
    assert(!same_letters(s, "infinity"@)) by {
        assert("infinity"@[0] == 'i');
    }
    assert(!same_letters(s, "nan"@)) by {
        assert("nan"@[0] == 'n');
    }
    lemma_first_at(s, 'e');
    lemma_first_at(s, 'E');
    lemma_first_at(s, '.');
    assert(first_at(s, 'e') == s.len()) by {
        if first_at(s, 'e') < s.len() {
            assert(digit_value(s[first_at(s, 'e') as int]) is Some);
        }
    }
    assert(first_at(s, 'E') == s.len()) by {
        if first_at(s, 'E') < s.len() {
            assert(digit_value(s[first_at(s, 'E') as int]) is Some);
        }
    }
    assert(first_at(s, '.') == s.len()) by {
        if first_at(s, '.') < s.len() {
            assert(digit_value(s[first_at(s, '.') as int]) is Some);
        }
    }
    assert(s.take(s.len() as int) =~= s);
    assert(whole_part(s) + fraction_part(s) =~= s);
    reveal(pow);
    let d = digits_value(s);
    assert(d * unit * 1 == d * unit) by (nonlinear_arith);
}

/// Two spellings of one cpu quantity are one: so many cores, and a thousand times as many millicores.
pub proof fn law_cores_are_a_thousand_millicores(n: nat)
    requires
        n * 1_000 <= u64::MAX,
    ensures
        millis_of(dec(n)) == Some((n * 1_000) as u64),
        millis_of(dec(n * 1_000) + "m"@) == Some((n * 1_000) as u64),
{
    reveal_strlit("m");
    let a = dec(n);
    lemma_dec(n);
    assert(digit_value(a[0]) is Some && digit_value(a[a.len() - 1]) is Some);
    lemma_trimmed(a);
    lemma_whole(a, 1_000);
    assert(!ends(a, "m"@)) by {
        assert(a.subrange(a.len() - 1, a.len() as int)[0] == a.last());
        assert("m"@[0] == 'm');
    }
    let d = dec(n * 1_000);
    let b = d + "m"@;
    lemma_dec(n * 1_000);
    law_a_number_reads_as_it_is_written(n * 1_000, u64::MAX as nat);
    assert(digit_value(d[0]) is Some);
    assert(b[0] == d[0] && b.last() == 'm');
    lemma_trimmed(b);
    assert(b.subrange(b.len() - 1, b.len() as int) =~= "m"@);
    assert(b.take(b.len() - 1) =~= d);
}

/// Two spellings of one memory quantity are one: so many gibibytes, and as many bytes.
pub proof fn law_gibibytes_are_bytes(n: nat)
    requires
        n * 1_073_741_824 <= u64::MAX,
    ensures
        bytes_of(dec(n) + "Gi"@) == Some((n * 1_073_741_824) as u64),
        bytes_of(dec(n * 1_073_741_824)) == Some((n * 1_073_741_824) as u64),
{
    reveal_strlit("Ki");
    reveal_strlit("Mi");
    reveal_strlit("Gi");
    reveal_strlit("Ti");
    reveal_strlit("K");
    reveal_strlit("M");
    reveal_strlit("G");
    reveal_with_fuel(bytes_from, 8);
    let d = dec(n);
    let a = d + "Gi"@;
    lemma_dec(n);
    assert(digit_value(d[0]) is Some);
    assert(a[0] == d[0] && a.last() == 'i' && a[a.len() - 2] == 'G');
    lemma_trimmed(a);
    lemma_whole(d, 1_073_741_824);
    assert(a.subrange(a.len() - 2, a.len() as int) =~= "Gi"@);
    assert(a.take(a.len() - 2) =~= d);
    assert(!ends(a, "Ki"@)) by {
        assert(a.subrange(a.len() - 2, a.len() as int)[0] == 'G' && "Ki"@[0] == 'K');
    }
    assert(!ends(a, "Mi"@)) by {
        assert(a.subrange(a.len() - 2, a.len() as int)[0] == 'G' && "Mi"@[0] == 'M');
    }
    let b = dec(n * 1_073_741_824);
    lemma_dec(n * 1_073_741_824);
    assert(digit_value(b[0]) is Some && digit_value(b[b.len() - 1]) is Some);
    lemma_trimmed(b);
    lemma_whole(b, 1);
    assert forall|p: Seq<char>| p.len() > 0 && digit_value(p.last()) is None implies !(#[trigger] ends(b, p)) by {
        if p.len() <= b.len() {
            assert(b.subrange(b.len() - p.len(), b.len() as int)[p.len() - 1] == b.last());
        }
    }
    assert(!ends(b, "Ki"@) && !ends(b, "Mi"@) && !ends(b, "Gi"@) && !ends(b, "Ti"@) && !ends(b, "K"@) && !ends(b, "M"@) && !ends(b, "G"@));
}

/// Each unit of memory is a number of bytes of its own: a thousand for `K`, and 1024 for `Ki`, and so on up.
pub proof fn law_each_unit_is_its_own_number_of_bytes(n: nat, k: int)
    requires
        0 <= k < 7,
        n * UNITS[k] <= u64::MAX,
    ensures
        bytes_of(dec(n) + SUFFIXES[k]@) == Some((n * UNITS[k]) as u64),
        UNITS[0] == 1_024 && UNITS[1] == 1_024 * 1_024 && UNITS[2] == 1_024 * 1_024 * 1_024 && UNITS[3] == 1_024 * 1_024 * 1_024 * 1_024,
        UNITS[4] == 1_000 && UNITS[5] == 1_000_000 && UNITS[6] == 1_000_000_000,
        SUFFIXES[0]@ == "Ki"@ && SUFFIXES[1]@ == "Mi"@ && SUFFIXES[2]@ == "Gi"@ && SUFFIXES[3]@ == "Ti"@,
        SUFFIXES[4]@ == "K"@ && SUFFIXES[5]@ == "M"@ && SUFFIXES[6]@ == "G"@,
{
    reveal_strlit("Ki");
    reveal_strlit("Mi");
    reveal_strlit("Gi");
    reveal_strlit("Ti");
    reveal_strlit("K");
    reveal_strlit("M");
    reveal_strlit("G");
    reveal_with_fuel(bytes_from, 8);
    let d = dec(n);
    let p = SUFFIXES[k]@;
    let a = d + p;
    lemma_dec(n);
    assert(digit_value(d[0]) is Some);
    assert(a[0] == d[0] && a.last() == p.last());
    lemma_trimmed(a);
    lemma_whole(d, UNITS[k] as nat);
    assert(a.subrange(a.len() - p.len(), a.len() as int) =~= p);
    assert(a.take(a.len() - p.len()) =~= d);
    assert forall|q: Seq<char>| q.len() > 0 && q.last() != a.last() implies !(#[trigger] ends(a, q)) by {
        if q.len() <= a.len() {
            assert(a.subrange(a.len() - q.len(), a.len() as int)[q.len() - 1] == a.last());
        }
    }
    assert forall|q: Seq<char>| q.len() == 2 && p.len() == 2 && q[0] != p[0] implies !(#[trigger] ends(a, q)) by {
        assert(a.subrange(a.len() - 2, a.len() as int)[0] == p[0]);
    }
    if k >= 4 {
        assert(!ends(a, "Ki"@) && !ends(a, "Mi"@) && !ends(a, "Gi"@) && !ends(a, "Ti"@));
        assert(k == 4 ==> ends(a, "K"@));
        assert(k >= 5 ==> !ends(a, "K"@));
        assert(k >= 6 ==> !ends(a, "M"@));
    } else {
        assert(k >= 1 ==> !ends(a, "Ki"@));
        assert(k >= 2 ==> !ends(a, "Mi"@));
        assert(k >= 3 ==> !ends(a, "Gi"@));
    }
}

} // verus!
