//! Counts written as a number followed by a suffix (`1.2M`, `164K`), read as
//! `f64` parsing reads the number.

use vstd::prelude::*;
use crate::text::{all_digits, digits_value, find, is_ascii_digit, lemma_find, lemma_find_at, occurs_at};
use super::{
    digits_exec, pow10, saturate, saturating_digits, slice_chars, spec_parse_subscribers,
    suffix_places,
};

verus! {

/// `c` is `w` or, where `w` is a lowercase ASCII letter, its capital.
pub open spec fn same_letter(c: char, w: char) -> bool {
    c == w || ('a' <= w && w <= 'z' && (c as u32) + 32 == (w as u32))
}

/// `s` is `word` (written in lower case), ignoring the case of ASCII letters.
pub open spec fn same_ignoring_case(s: Seq<char>, word: Seq<char>) -> bool {
    s.len() == word.len() && forall|i: int| 0 <= i < s.len() ==> same_letter(#[trigger] s[i], word[i])
}

/// A leading sign of `s`: whether it is `-`, and the text after it.
pub open spec fn split_sign(s: Seq<char>) -> (bool, Seq<char>) {
    if s.len() > 0 && (s[0] == '+' || s[0] == '-') {
        (s[0] == '-', s.drop_first())
    } else {
        (false, s)
    }
}

/// The index of the first `e` or `E` in `s` at or after `i`.
pub open spec fn exponent_mark(s: Seq<char>, i: int) -> Option<int>
    decreases s.len() - i,
{
    if i < 0 || i >= s.len() {
        None
    } else if s[i] == 'e' || s[i] == 'E' {
        Some(i)
    } else {
        exponent_mark(s, i + 1)
    }
}

/// The digits of a number written `I`, `I.`, `I.F` or `.F` with at least one
/// digit, and how many of them follow the point.
pub open spec fn mantissa_digits(m: Seq<char>) -> Option<(Seq<char>, nat)> {
    match find(m, seq!['.']) {
        None => if m.len() > 0 && all_digits(m) {
            Some((m, 0))
        } else {
            None
        },
        Some(i) => {
            let ip = m.subrange(0, i);
            let fp = m.subrange(i + 1, m.len() as int);
            if all_digits(ip) && all_digits(fp) && ip.len() + fp.len() > 0 {
                Some((ip + fp, fp.len()))
            } else {
                None
            }
        },
    }
}

/// The exponent written `[+|-]D` with at least one digit.
pub open spec fn exponent_value(x: Seq<char>) -> Option<int> {
    let (neg, d) = split_sign(x);
    if d.len() > 0 && all_digits(d) {
        Some(
            if neg {
                -(digits_value(d) as int)
            } else {
                digits_value(d) as int
            },
        )
    } else {
        None
    }
}

/// The digits of an unsigned decimal number `[I][.F][(e|E)X]`, and the power
/// of ten that they are to be multiplied by.
pub open spec fn decimal_reading(s: Seq<char>) -> Option<(Seq<char>, int)> {
    let mark = exponent_mark(s, 0);
    let m = match mark {
        Some(k) => s.subrange(0, k),
        None => s,
    };
    match mantissa_digits(m) {
        None => None,
        Some((digits, after)) => match mark {
            None => Some((digits, -(after as int))),
            Some(k) => match exponent_value(s.subrange(k + 1, s.len() as int)) {
                None => None,
                Some(e) => Some((digits, e - after)),
            },
        },
    }
}

/// `k` zeros.
pub open spec fn zeros(k: nat) -> Seq<char> {
    Seq::new(k, |i: int| '0')
}

/// The digits of the whole part of `digits × 10^e`: `e` zeros appended, or
/// the last `-e` digits dropped.
pub open spec fn shift_digits(digits: Seq<char>, e: int) -> Seq<char> {
    if e >= 0 {
        digits + zeros(e as nat)
    } else if digits.len() + e > 0 {
        digits.subrange(0, digits.len() + e)
    } else {
        Seq::<char>::empty()
    }
}

/// The whole part of `digits × 10^e`, or `u64::MAX` where that is larger.
pub open spec fn shifted_value(digits: Seq<char>, e: int) -> u64 {
    saturate(digits_value(shift_digits(digits, e)))
}

/// What a count `body` followed by a suffix worth `places` decimal places is
/// read as: the number that `body` writes, in the forms that `f64` parsing
/// accepts (a sign, then `inf`, `infinity` or `nan` in any case, or a decimal
/// number with an optional exponent), multiplied by `10^places`, rounded
/// toward zero and brought into the range of `u64` as a float-to-integer
/// conversion does: a negative value or NaN gives 0, a value too large gives
/// `u64::MAX`. The number is read exactly, where a float reading rounds it
/// to 53 bits.
pub open spec fn scaled_reading(body: Seq<char>, places: nat) -> Option<u64> {
    let (neg, rest) = split_sign(body);
    if same_ignoring_case(rest, seq!['i', 'n', 'f']) || same_ignoring_case(
        rest,
        seq!['i', 'n', 'f', 'i', 'n', 'i', 't', 'y'],
    ) {
        Some(
            if neg {
                0
            } else {
                u64::MAX
            },
        )
    } else if same_ignoring_case(rest, seq!['n', 'a', 'n']) {
        Some(0)
    } else {
        match decimal_reading(rest) {
            None => None,
            Some((digits, e)) => Some(
                if neg {
                    0
                } else {
                    shifted_value(digits, e + places)
                },
            ),
        }
    }
}

// ---------------------------------------------------------------------------
// Lemmas
// ---------------------------------------------------------------------------

/// Appending zeros multiplies the value by a power of ten.
proof fn lemma_append_zeros(s: Seq<char>, k: nat)
    ensures
        digits_value(s + zeros(k)) == digits_value(s) * pow10(k),
    decreases k,
{
    if k == 0 {
        assert(s + zeros(0) =~= s);
        assert(pow10(0) == 1);
        assert(digits_value(s) * 1 == digits_value(s));
    } else {
        lemma_append_zeros(s, (k - 1) as nat);
        let t = s + zeros(k);
        assert(t.drop_last() =~= s + zeros((k - 1) as nat));
        assert(t.last() == '0');
        assert(digits_value(t) == digits_value(t.drop_last()) * 10);
        let a = digits_value(s);
        let p = pow10((k - 1) as nat);
        assert(pow10(k) == 10 * p);
        assert(a * p * 10 == a * (10 * p)) by (nonlinear_arith);
        assert(digits_value(t) == a * p * 10);
    }
}

/// Powers of ten grow with the exponent.
proof fn lemma_pow10_monotone(j: nat, k: nat)
    requires
        j <= k,
    ensures
        pow10(j) <= pow10(k),
    decreases k - j,
{
    if j < k {
        lemma_pow10_monotone(j, (k - 1) as nat);
    }
}

/// A prefix of digits is worth at most all of them.
proof fn lemma_prefix_value(s: Seq<char>, j: int)
    requires
        0 <= j <= s.len(),
    ensures
        digits_value(s.subrange(0, j)) <= digits_value(s),
    decreases s.len() - j,
{
    if j < s.len() {
        lemma_prefix_value(s, j + 1);
        assert(s.subrange(0, j + 1).drop_last() =~= s.subrange(0, j));
    } else {
        assert(s.subrange(0, j) =~= s);
    }
}

/// Digits worth nothing stay worth nothing when shifted.
proof fn lemma_shift_zero(digits: Seq<char>, e: int)
    requires
        digits_value(digits) == 0,
    ensures
        shifted_value(digits, e) == 0,
{
    if e >= 0 {
        lemma_append_zeros(digits, e as nat);
    } else if digits.len() + e > 0 {
        lemma_prefix_value(digits, digits.len() + e);
    }
}

/// Digits worth something, shifted by twenty places or more, are worth more
/// than `u64::MAX`.
proof fn lemma_shift_large(digits: Seq<char>, e: int)
    requires
        digits_value(digits) > 0,
        e >= 20,
    ensures
        shifted_value(digits, e) == u64::MAX,
{
    lemma_append_zeros(digits, e as nat);
    lemma_pow10_monotone(20, e as nat);
    assert(pow10(20) == 100000000000000000000) by {
        reveal_with_fuel(pow10, 21);
    }
    let a = digits_value(digits);
    let p = pow10(e as nat);
    assert(a * p >= p) by (nonlinear_arith)
        requires
            a >= 1,
            p >= 0,
    ;
}

/// Digits shifted right by all of their places or more are worth nothing.
proof fn lemma_shift_small(digits: Seq<char>, e: int)
    requires
        digits.len() + e <= 0,
    ensures
        shifted_value(digits, e) == 0,
{
}

/// `s` has no `e` or `E` from `j` up to `i`, so the first one at or after `j`
/// is the first one at or after `i`.
proof fn lemma_mark_skip(s: Seq<char>, j: int, i: int)
    requires
        0 <= j <= i <= s.len(),
        forall|k: int| j <= k < i ==> !(#[trigger] s[k] == 'e' || s[k] == 'E'),
    ensures
        exponent_mark(s, j) == exponent_mark(s, i),
    decreases i - j,
{
    if j < i {
        lemma_mark_skip(s, j + 1, i);
    }
}

/// The digits of a mantissa `I.F` are those of `I` followed by those of `F`,
/// with as many places after the point as `F` has digits: zeros after the
/// point count (`1.05` is `105` with two places).
pub proof fn law_mantissa_digits(ip: Seq<char>, fp: Seq<char>)
    requires
        all_digits(ip),
        all_digits(fp),
        ip.len() + fp.len() > 0,
    ensures
        mantissa_digits(ip + seq!['.'] + fp) == Some((ip + fp, fp.len())),
{
    let m = ip + seq!['.'] + fp;
    let i = ip.len() as int;
    assert(m.subrange(i, i + 1) =~= seq!['.']);
    assert forall|k: int| 0 <= k < i implies !occurs_at(m, seq!['.'], k) by {
        assert(m[k] == ip[k]);
        assert(is_ascii_digit(ip[k]));
        if occurs_at(m, seq!['.'], k) {
            assert(m.subrange(k, k + 1)[0] == m[k]);
        }
    }
    lemma_find_at(m, seq!['.'], i);
    assert(m.subrange(0, i) =~= ip);
    assert(m.subrange(i + 1, m.len() as int) =~= fp);
}

/// A count written `I.F` with a suffix `K` or `M` is the decimal number
/// `I.F` times a thousand or a million, rounded toward zero: where `F` has
/// no more digits than the suffix has places, the digits of `I` and `F`
/// followed by the places left over as zeros (`1.05M` is `1050000`); where it
/// has more, the digits of `I` and of `F` up to the suffix's places (`1.2345K`
/// is `1234`). A value above `u64::MAX` gives `u64::MAX`.
pub proof fn law_subscriber_decimal(ip: Seq<char>, fp: Seq<char>, suffix: char)
    requires
        all_digits(ip),
        all_digits(fp),
        ip.len() + fp.len() > 0,
        suffix == 'K' || suffix == 'M',
    ensures
        pow10(suffix_places(suffix)) == (if suffix == 'K' {
            1000nat
        } else {
            1000000nat
        }),
        fp.len() <= suffix_places(suffix) ==> spec_parse_subscribers(
            ip + seq!['.'] + fp + seq![suffix],
        ) == Some(
            saturate(
                digits_value(ip + fp) * pow10((suffix_places(suffix) - fp.len()) as nat),
            ),
        ),
        fp.len() >= suffix_places(suffix) ==> spec_parse_subscribers(
            ip + seq!['.'] + fp + seq![suffix],
        ) == Some(saturate(digits_value(ip + fp.subrange(0, suffix_places(suffix) as int)))),
{
    let body = ip + seq!['.'] + fp;
    let v = body + seq![suffix];
    let p = suffix_places(suffix);
    assert(pow10(3) == 1000 && pow10(6) == 1000000) by {
        reveal_with_fuel(pow10, 7);
    }
    assert(v.drop_last() =~= body);
    assert(v.last() == suffix);
    assert(!is_ascii_digit(v.last()));
    // No sign, and not a word.
    assert(body[0] == '.' || is_ascii_digit(body[0])) by {
        if ip.len() > 0 {
            assert(body[0] == ip[0]);
        }
    }
    assert(split_sign(body) == (false, body));
    assert(!same_ignoring_case(body, seq!['i', 'n', 'f'])) by {
        if same_ignoring_case(body, seq!['i', 'n', 'f']) {
            assert(same_letter(body[0], seq!['i', 'n', 'f'][0]));
        }
    }
    assert(!same_ignoring_case(body, seq!['i', 'n', 'f', 'i', 'n', 'i', 't', 'y'])) by {
        if same_ignoring_case(body, seq!['i', 'n', 'f', 'i', 'n', 'i', 't', 'y']) {
            assert(same_letter(body[0], seq!['i', 'n', 'f', 'i', 'n', 'i', 't', 'y'][0]));
        }
    }
    assert(!same_ignoring_case(body, seq!['n', 'a', 'n'])) by {
        if same_ignoring_case(body, seq!['n', 'a', 'n']) {
            assert(same_letter(body[0], seq!['n', 'a', 'n'][0]));
        }
    }
    // No exponent.
    assert forall|k: int| 0 <= k < body.len() implies !(#[trigger] body[k] == 'e' || body[k]
        == 'E') by {
        if k < ip.len() {
            assert(body[k] == ip[k]);
            assert(is_ascii_digit(ip[k]));
        } else if k > ip.len() {
            assert(body[k] == fp[k - ip.len() - 1]);
            assert(is_ascii_digit(fp[k - ip.len() - 1]));
        }
    }
    lemma_mark_skip(body, 0, body.len() as int);
    assert(exponent_mark(body, 0) is None);
    law_mantissa_digits(ip, fp);
    assert(decimal_reading(body) == Some((ip + fp, -(fp.len() as int))));
    let e = p - fp.len();
    assert(spec_parse_subscribers(v) == Some(shifted_value(ip + fp, e)));
    if fp.len() <= p {
        lemma_append_zeros(ip + fp, e as nat);
    }
    if fp.len() >= p {
        if e == 0 {
            assert((ip + fp) + zeros(0) =~= ip + fp.subrange(0, p as int));
        } else {
            assert((ip + fp).len() + e > 0);
            assert((ip + fp).subrange(0, (ip + fp).len() + e) =~= ip + fp.subrange(0, p as int));
        }
    }
}

/// A whole count `I` with a suffix `K` or `M` is `I` thousands or `I`
/// millions (`164K` is `164000`); a value above `u64::MAX` gives `u64::MAX`.
pub proof fn law_subscriber_whole(ip: Seq<char>, suffix: char)
    requires
        all_digits(ip),
        ip.len() > 0,
        suffix == 'K' || suffix == 'M',
    ensures
        spec_parse_subscribers(ip + seq![suffix]) == Some(
            saturate(
                digits_value(ip) * (if suffix == 'K' {
                    1000nat
                } else {
                    1000000nat
                }),
            ),
        ),
{
    let v = ip + seq![suffix];
    let p = suffix_places(suffix);
    assert(pow10(3) == 1000 && pow10(6) == 1000000) by {
        reveal_with_fuel(pow10, 7);
    }
    assert(v.drop_last() =~= ip);
    assert(v.last() == suffix);
    assert(is_ascii_digit(ip[0]));
    assert(split_sign(ip) == (false, ip));
    assert(!same_ignoring_case(ip, seq!['i', 'n', 'f'])) by {
        if same_ignoring_case(ip, seq!['i', 'n', 'f']) {
            assert(same_letter(ip[0], seq!['i', 'n', 'f'][0]));
        }
    }
    assert(!same_ignoring_case(ip, seq!['i', 'n', 'f', 'i', 'n', 'i', 't', 'y'])) by {
        if same_ignoring_case(ip, seq!['i', 'n', 'f', 'i', 'n', 'i', 't', 'y']) {
            assert(same_letter(ip[0], seq!['i', 'n', 'f', 'i', 'n', 'i', 't', 'y'][0]));
        }
    }
    assert(!same_ignoring_case(ip, seq!['n', 'a', 'n'])) by {
        if same_ignoring_case(ip, seq!['n', 'a', 'n']) {
            assert(same_letter(ip[0], seq!['n', 'a', 'n'][0]));
        }
    }
    assert forall|k: int| 0 <= k < ip.len() implies !(#[trigger] ip[k] == 'e' || ip[k] == 'E') by {
        assert(is_ascii_digit(ip[k]));
    }
    lemma_mark_skip(ip, 0, ip.len() as int);
    assert(exponent_mark(ip, 0) is None);
    lemma_find(ip, seq!['.']);
    if find(ip, seq!['.']) is Some {
        let j = find(ip, seq!['.'])->0;
        assert(ip.subrange(j, j + 1)[0] == ip[j]);
        assert(is_ascii_digit(ip[j]));
    }
    assert(mantissa_digits(ip) == Some((ip, 0nat)));
    assert(spec_parse_subscribers(v) == Some(shifted_value(ip, p as int)));
    lemma_append_zeros(ip, p);
}

// ---------------------------------------------------------------------------
// Executable reading
// ---------------------------------------------------------------------------

/// Whether `s` is `word` (written in lower case), ignoring the case of ASCII
/// letters.
fn same_ignoring_case_exec(s: &[char], word: &[char]) -> (b: bool)
    ensures
        b == same_ignoring_case(s@, word@),
{
    if s.len() != word.len() {
        return false;
    }
    let mut i: usize = 0;
    while i < s.len()
        invariant
            s@.len() == word@.len(),
            i <= s@.len(),
            forall|k: int| 0 <= k < i ==> same_letter(#[trigger] s@[k], word@[k]),
        decreases s@.len() - i,
    {
        let c = s[i];
        let w = word[i];
        let same = c == w || ('a' <= w && w <= 'z' && (c as u32) == (w as u32) - 32);
        if !same {
            return false;
        }
        i += 1;
    }
    true
}

/// The first index of `e` or `E` in `s`.
fn exponent_mark_exec(s: &[char]) -> (r: Option<usize>)
    ensures
        (match r {
            Some(k) => exponent_mark(s@, 0) == Some(k as int) && k < s@.len(),
            None => exponent_mark(s@, 0) is None,
        }),
{
    let mut i: usize = 0;
    while i < s.len()
        invariant
            i <= s@.len(),
            forall|k: int| 0 <= k < i ==> !(#[trigger] s@[k] == 'e' || s@[k] == 'E'),
        decreases s@.len() - i,
    {
        if s[i] == 'e' || s[i] == 'E' {
            proof {
                lemma_mark_skip(s@, 0, i as int);
            }
            return Some(i);
        }
        i += 1;
    }
    proof {
        lemma_mark_skip(s@, 0, i as int);
    }
    None
}

/// The digits of a number written `I`, `I.`, `I.F` or `.F`, and how many of
/// them follow the point.
fn mantissa_digits_exec(m: &[char]) -> (r: Option<(Vec<char>, usize)>)
    ensures
        (match r {
            Some((d, after)) => mantissa_digits(m@) == Some((d@, after as nat)) && after
                <= d@.len() && all_digits(d@),
            None => mantissa_digits(m@) is None,
        }),
{
    match crate::text::find_char(m, '.') {
        None => {
            if m.len() > 0 && digits_exec(m) {
                assert(m@.subrange(0, m@.len() as int) =~= m@);
                Some((slice_chars(m, 0, m.len()), 0))
            } else {
                None
            }
        },
        Some(i) => {
            let n = m.len();
            let ip = slice_chars(m, 0, i);
            let fp = slice_chars(m, i + 1, n);
            if digits_exec(ip.as_slice()) && digits_exec(fp.as_slice()) && ip.len() + fp.len() > 0 {
                let after = fp.len();
                let ghost ipv = ip@;
                let ghost fpv = fp@;
                let mut d = ip;
                let mut rest = fp;
                d.append(&mut rest);
                assert(d@ =~= ipv + fpv);
                assert forall|j: int| 0 <= j < d@.len() implies is_ascii_digit(#[trigger] d@[j]) by {
                    if j < ipv.len() {
                        assert(is_ascii_digit(ipv[j]));
                    } else {
                        assert(is_ascii_digit(fpv[j - ipv.len()]));
                    }
                }
                Some((d, after))
            } else {
                None
            }
        },
    }
}

/// The value of the digits `d`, or `bound` where it is larger.
fn clamped_digits(d: &[char], bound: u128) -> (r: u128)
    requires
        all_digits(d@),
        bound < 0x1_0000_0000_0000_0000_0000_0000,
    ensures
        r as int == (if digits_value(d@) < bound {
            digits_value(d@) as int
        } else {
            bound as int
        }),
{
    let mut acc: u128 = 0;
    let mut i: usize = 0;
    assert(d@.subrange(0, 0) =~= Seq::<char>::empty());
    while i < d.len()
        invariant
            i <= d@.len(),
            all_digits(d@),
            bound < 0x1_0000_0000_0000_0000_0000_0000,
            acc as int == (if digits_value(d@.subrange(0, i as int)) < bound {
                digits_value(d@.subrange(0, i as int)) as int
            } else {
                bound as int
            }),
        decreases d@.len() - i,
    {
        proof {
            super::lemma_digits_value_step(d@, i as int);
            assert(is_ascii_digit(d@[i as int]));
        }
        let digit = (d[i] as u32 - '0' as u32) as u128;
        let next = acc * 10 + digit;
        acc = if next < bound {
            next
        } else {
            bound
        };
        i += 1;
    }
    assert(d@.subrange(0, d@.len() as int) =~= d@);
    acc
}

/// The whole part of `digits × 10^e`, or `u64::MAX` where that is larger.
fn shifted_value_exec(digits: &[char], e: i128) -> (r: u64)
    requires
        all_digits(digits@),
    ensures
        r == shifted_value(digits@, e as int),
{
    let n = digits.len();
    if e >= 0 {
        let v = saturating_digits(digits);
        if v == 0 {
            proof {
                lemma_shift_zero(digits@, e as int);
            }
            return 0;
        }
        if e >= 20 {
            proof {
                lemma_shift_large(digits@, e as int);
            }
            return u64::MAX;
        }
        let ghost a = digits_value(digits@);
        let mut acc = v;
        let mut k: i128 = 0;
        assert(pow10(0) == 1);
        assert(a * pow10(0) == a);
        while k < e
            invariant
                0 <= k <= e,
                e < 20,
                a == digits_value(digits@),
                acc == saturate(a * pow10(k as nat)),
            decreases e - k,
        {
            let ghost p = pow10(k as nat);
            assert(pow10((k + 1) as nat) == 10 * p);
            assert(a * (10 * p) == 10 * (a * p)) by (nonlinear_arith);
            if acc == u64::MAX {
                assert(a * p >= u64::MAX);
            } else {
                acc = match acc.checked_mul(10) {
                    Some(m) => m,
                    None => u64::MAX,
                };
            }
            k += 1;
        }
        proof {
            lemma_append_zeros(digits@, e as nat);
        }
        acc
    } else if (n as i128) + e > 0 {
        let keep = ((n as i128) + e) as usize;
        let prefix = slice_chars(digits, 0, keep);
        assert(all_digits(prefix@));
        saturating_digits(prefix.as_slice())
    } else {
        0
    }
}

/// `e` brought into the range from `-b` to `b`.
pub open spec fn clamp(e: int, b: int) -> int {
    if e > b {
        b
    } else if e < -b {
        -b
    } else {
        e
    }
}

/// Where the exponent is larger than the digits could bear, clamping it
/// changes nothing: a shift by more than twenty places saturates digits worth
/// something, and a shift right past all the digits leaves nothing.
proof fn lemma_clamped_shift(digits: Seq<char>, x: int, after: int, places: int)
    requires
        0 <= after <= digits.len(),
        0 <= places <= 6,
    ensures
        shifted_value(digits, clamp(x, digits.len() + 40int) - after + places) == shifted_value(
            digits,
            x - after + places,
        ),
{
    let b: int = digits.len() + 40int;
    let c = clamp(x, b) - after + places;
    let t = x - after + places;
    if c != t {
        if digits_value(digits) == 0 {
            lemma_shift_zero(digits, c);
            lemma_shift_zero(digits, t);
        } else if x > b {
            lemma_shift_large(digits, c);
            lemma_shift_large(digits, t);
        } else {
            lemma_shift_small(digits, c);
            lemma_shift_small(digits, t);
        }
    }
}

/// The exponent written `x`, brought into the range from `-bound` to
/// `bound`.
fn exponent_exec(x: &[char], bound: u128) -> (r: Option<i128>)
    requires
        bound < 0x1_0000_0000_0000_0000_0000_0000,
    ensures
        (match r {
            Some(v) => exponent_value(x@) matches Some(e) && v as int == clamp(e, bound as int),
            None => exponent_value(x@) is None,
        }),
{
    let xneg = x.len() > 0 && x[0] == '-';
    let xstart: usize = if x.len() > 0 && (x[0] == '+' || x[0] == '-') {
        1
    } else {
        0
    };
    let xd = slice_chars(x, xstart, x.len());
    proof {
        if xstart == 1 {
            assert(xd@ =~= x@.drop_first());
        } else {
            assert(xd@ =~= x@);
        }
        assert(split_sign(x@) == (xneg, xd@));
    }
    if xd.len() == 0 || !digits_exec(xd.as_slice()) {
        return None;
    }
    let v = clamped_digits(xd.as_slice(), bound) as i128;
    if xneg {
        Some(-v)
    } else {
        Some(v)
    }
}

/// The whole part of the unsigned decimal number `rest` times `10^places`,
/// or `u64::MAX` where that is larger.
fn decimal_value_exec(rest: &[char], places: usize) -> (r: Option<u64>)
    requires
        places <= 6,
    ensures
        (match r {
            Some(v) => decimal_reading(rest@) matches Some((d, e)) && v == shifted_value(
                d,
                e + places,
            ),
            None => decimal_reading(rest@) is None,
        }),
{
    let mark = exponent_mark_exec(rest);
    let mantissa = match mark {
        Some(k) => slice_chars(rest, 0, k),
        None => slice_chars(rest, 0, rest.len()),
    };
    assert(mark is None ==> mantissa@ =~= rest@);
    let (digits, after) = match mantissa_digits_exec(mantissa.as_slice()) {
        Some(p) => p,
        None => {
            return None;
        },
    };
    match mark {
        None => {
            let e = (places as i128) - (after as i128);
            Some(shifted_value_exec(digits.as_slice(), e))
        },
        Some(k) => {
            let n = rest.len();
            let x = slice_chars(rest, k + 1, n);
            let bound: u128 = (digits.len() as u128) + 40;
            match exponent_exec(x.as_slice(), bound) {
                None => None,
                Some(v) => {
                    proof {
                        let ev = exponent_value(x@).unwrap();
                        lemma_clamped_shift(digits@, ev, after as int, places as int);
                    }
                    let e = v - (after as i128) + (places as i128);
                    Some(shifted_value_exec(digits.as_slice(), e))
                },
            }
        },
    }
}

/// The reading of a count `body` followed by a suffix worth `places`
/// decimal places.
pub fn scaled_reading_exec(body: &[char], places: usize) -> (r: Option<u64>)
    requires
        places <= 6,
    ensures
        r == scaled_reading(body@, places as nat),
{
    let neg = body.len() > 0 && body[0] == '-';
    let start: usize = if body.len() > 0 && (body[0] == '+' || body[0] == '-') {
        1
    } else {
        0
    };
    let rest = slice_chars(body, start, body.len());
    proof {
        if start == 1 {
            assert(rest@ =~= body@.drop_first());
        } else {
            assert(rest@ =~= body@);
        }
        assert(split_sign(body@) == (neg, rest@));
    }
    let inf: Vec<char> = vec!['i', 'n', 'f'];
    let infinity: Vec<char> = vec!['i', 'n', 'f', 'i', 'n', 'i', 't', 'y'];
    let nan: Vec<char> = vec!['n', 'a', 'n'];
    assert(inf@ =~= seq!['i', 'n', 'f']);
    assert(infinity@ =~= seq!['i', 'n', 'f', 'i', 'n', 'i', 't', 'y']);
    assert(nan@ =~= seq!['n', 'a', 'n']);
    if same_ignoring_case_exec(rest.as_slice(), inf.as_slice()) || same_ignoring_case_exec(
        rest.as_slice(),
        infinity.as_slice(),
    ) {
        return Some(
            if neg {
                0
            } else {
                u64::MAX
            },
        );
    }
    if same_ignoring_case_exec(rest.as_slice(), nan.as_slice()) {
        return Some(0);
    }
    match decimal_value_exec(rest.as_slice(), places) {
        None => None,
        Some(v) => Some(
            if neg {
                0
            } else {
                v
            },
        ),
    }
}

} // verus!
