//! Text helpers shared by the parsers of this crate.
//!
//! Everything here works on the characters of a string (`s@`), so that every
//! contract can be read over `Seq<char>`.

use vstd::prelude::*;
use vstd::string::*;

verus! {

broadcast use vstd::seq_lib::group_seq_properties;

// ---------------------------------------------------------------------------
// Specifications
// ---------------------------------------------------------------------------

/// `pat` occurs in `s` starting at index `i`.
pub open spec fn occurs_at(s: Seq<char>, pat: Seq<char>, i: int) -> bool {
    0 <= i && i + pat.len() <= s.len() && s.subrange(i, i + pat.len()) == pat
}

/// The first index at or after `i` where `pat` occurs in `s`.
pub open spec fn find_from(s: Seq<char>, pat: Seq<char>, i: int) -> Option<int>
    decreases s.len() + 1 - i,
{
    if i < 0 || i + pat.len() > s.len() {
        None
    } else if occurs_at(s, pat, i) {
        Some(i)
    } else {
        find_from(s, pat, i + 1)
    }
}

/// The first index where `pat` occurs in `s`.
pub open spec fn find(s: Seq<char>, pat: Seq<char>) -> Option<int> {
    find_from(s, pat, 0)
}

/// `s` starts with `p`.
pub open spec fn starts_with(s: Seq<char>, p: Seq<char>) -> bool {
    p.len() <= s.len() && s.subrange(0, p.len() as int) == p
}

/// `s` ends with `p`.
pub open spec fn ends_with(s: Seq<char>, p: Seq<char>) -> bool {
    p.len() <= s.len() && s.subrange(s.len() - p.len(), s.len() as int) == p
}

/// `s` without the prefix `p`, if `s` starts with it (as `str::strip_prefix`).
pub open spec fn strip_prefix(s: Seq<char>, p: Seq<char>) -> Option<Seq<char>> {
    if starts_with(s, p) {
        Some(s.subrange(p.len() as int, s.len() as int))
    } else {
        None
    }
}

/// `s` without the suffix `p`, if `s` ends with it (as `str::strip_suffix`).
pub open spec fn strip_suffix(s: Seq<char>, p: Seq<char>) -> Option<Seq<char>> {
    if ends_with(s, p) {
        Some(s.subrange(0, s.len() - p.len()))
    } else {
        None
    }
}

/// `s` contains `pat` somewhere.
pub open spec fn contains(s: Seq<char>, pat: Seq<char>) -> bool {
    find(s, pat) is Some
}

/// The parts of `s` before and after the first occurrence of `d`
/// (as `str::split_once`).
pub open spec fn split_once(s: Seq<char>, d: Seq<char>) -> Option<(Seq<char>, Seq<char>)> {
    match find(s, d) {
        Some(i) => Some((s.subrange(0, i), s.subrange(i + d.len(), s.len() as int))),
        None => None,
    }
}

/// The pieces of `s` between the occurrences of `c` (as `str::split` with a
/// `char` pattern): there is always at least one piece.
pub open spec fn split_on(s: Seq<char>, c: char) -> Seq<Seq<char>>
    decreases s.len(),
{
    if s.len() == 0 {
        seq![Seq::<char>::empty()]
    } else {
        let init = split_on(s.drop_last(), c);
        if s.last() == c {
            init.push(Seq::<char>::empty())
        } else {
            init.update(init.len() - 1, init.last().push(s.last()))
        }
    }
}

/// `s` with every `c` removed (as `str::replace(c, "")`).
pub open spec fn remove_char(s: Seq<char>, c: char) -> Seq<char>
    decreases s.len(),
{
    if s.len() == 0 {
        s
    } else if s.last() == c {
        remove_char(s.drop_last(), c)
    } else {
        remove_char(s.drop_last(), c).push(s.last())
    }
}

/// `c` is one of `0..=9`.
pub open spec fn is_ascii_digit(c: char) -> bool {
    '0' <= c && c <= '9'
}

/// Every character of `s` is one of `0..=9`.
pub open spec fn all_digits(s: Seq<char>) -> bool {
    forall|i: int| 0 <= i < s.len() ==> is_ascii_digit(#[trigger] s[i])
}

/// The number that the decimal digits `s` denote.
pub open spec fn digits_value(s: Seq<char>) -> nat
    decreases s.len(),
{
    if s.len() == 0 {
        0
    } else {
        digits_value(s.drop_last()) * 10 + ((s.last() as nat) - ('0' as nat)) as nat
    }
}

/// The digits of an unsigned number: `s` without one leading `+`.
pub open spec fn unsigned_body(s: Seq<char>) -> Seq<char> {
    if s.len() > 0 && s[0] == '+' {
        s.drop_first()
    } else {
        s
    }
}

/// What `str::parse::<u64>` gives for `s`.
pub open spec fn parse_u64(s: Seq<char>) -> Option<u64> {
    let b = unsigned_body(s);
    if b.len() > 0 && all_digits(b) && digits_value(b) <= u64::MAX {
        Some(digits_value(b) as u64)
    } else {
        None
    }
}

/// What `str::parse::<usize>` gives for `s`.
pub open spec fn parse_usize(s: Seq<char>) -> Option<usize> {
    let b = unsigned_body(s);
    if b.len() > 0 && all_digits(b) && digits_value(b) <= usize::MAX {
        Some(digits_value(b) as usize)
    } else {
        None
    }
}

/// The decimal digits of `n`, without leading zeros (`"0"` for zero).
pub open spec fn decimal(n: nat) -> Seq<char>
    decreases n,
{
    if n < 10 {
        seq![(('0' as nat) + n) as char]
    } else {
        decimal(n / 10).push((('0' as nat) + n % 10) as char)
    }
}

/// The pieces joined by `sep` (as `[&str]::join`).
pub open spec fn join(parts: Seq<Seq<char>>, sep: Seq<char>) -> Seq<char>
    decreases parts.len(),
{
    if parts.len() == 0 {
        Seq::<char>::empty()
    } else if parts.len() == 1 {
        parts[0]
    } else {
        join(parts.drop_last(), sep) + sep + parts.last()
    }
}

/// The character sequences held by a sequence of character vectors.
pub open spec fn char_views(v: Seq<Vec<char>>) -> Seq<Seq<char>> {
    Seq::new(v.len(), |i: int| v[i]@)
}

// ---------------------------------------------------------------------------
// Lemmas
// ---------------------------------------------------------------------------

/// Joining one more piece appends the separator and that piece.
pub proof fn lemma_join_push(parts: Seq<Seq<char>>, sep: Seq<char>, x: Seq<char>)
    requires
        parts.len() >= 1,
    ensures
        join(parts.push(x), sep) == join(parts, sep) + sep + x,
{
    assert(parts.push(x).drop_last() =~= parts);
}

/// A found index is a real occurrence, and no earlier one exists.
pub proof fn lemma_find_from(s: Seq<char>, pat: Seq<char>, i: int)
    requires
        0 <= i,
    ensures
        find_from(s, pat, i) matches Some(j) ==> i <= j && occurs_at(s, pat, j) && forall|k: int|
            i <= k < j ==> !occurs_at(s, pat, k),
        find_from(s, pat, i) is None ==> forall|k: int| i <= k ==> !occurs_at(s, pat, k),
    decreases s.len() + 1 - i,
{
    if i + pat.len() > s.len() {
    } else if occurs_at(s, pat, i) {
    } else {
        lemma_find_from(s, pat, i + 1);
    }
}

/// `find` gives the first occurrence.
pub proof fn lemma_find(s: Seq<char>, pat: Seq<char>)
    ensures
        find(s, pat) matches Some(j) ==> occurs_at(s, pat, j) && forall|k: int|
            0 <= k < j ==> !occurs_at(s, pat, k),
        find(s, pat) is None ==> forall|k: int| 0 <= k ==> !occurs_at(s, pat, k),
{
    lemma_find_from(s, pat, 0);
}

/// `s` does not start with `p` where they differ at some index `k` of `p`.
pub proof fn lemma_not_starts_with(s: Seq<char>, p: Seq<char>, k: int)
    requires
        0 <= k < p.len(),
        k >= s.len() || s[k] != p[k],
    ensures
        !starts_with(s, p),
{
    if p.len() <= s.len() {
        assert(s.subrange(0, p.len() as int)[k] == s[k]);
    }
}

/// `split_on` always yields at least one piece.
pub proof fn lemma_split_on_len(s: Seq<char>, c: char)
    ensures
        split_on(s, c).len() >= 1,
    decreases s.len(),
{
    if s.len() > 0 {
        lemma_split_on_len(s.drop_last(), c);
    }
}

proof fn lemma_digits_value_prefix(s: Seq<char>, j: int)
    requires
        0 <= j <= s.len(),
    ensures
        digits_value(s.subrange(0, j)) <= digits_value(s),
    decreases s.len() - j,
{
    if j < s.len() {
        lemma_digits_value_prefix(s, j + 1);
        let t = s.subrange(0, j + 1);
        assert(t.drop_last() =~= s.subrange(0, j));
    } else {
        assert(s.subrange(0, j) =~= s);
    }
}

/// A non-empty run of decimal digits parses to the number it denotes,
/// wherever that number fits the integer type.
pub proof fn lemma_parse_digits(a: Seq<char>)
    requires
        a.len() > 0,
        all_digits(a),
    ensures
        unsigned_body(a) == a,
        digits_value(a) <= u64::MAX ==> parse_u64(a) == Some(digits_value(a) as u64),
        digits_value(a) <= usize::MAX ==> parse_usize(a) == Some(digits_value(a) as usize),
{
    assert(is_ascii_digit(a[0]));
}

/// A string with no `c` in it is left as it is by removing `c`.
pub proof fn lemma_remove_absent(s: Seq<char>, c: char)
    requires
        forall|i: int| 0 <= i < s.len() ==> s[i] != c,
    ensures
        remove_char(s, c) == s,
    decreases s.len(),
{
    if s.len() > 0 {
        lemma_remove_absent(s.drop_last(), c);
        assert(s.drop_last().push(s.last()) =~= s);
    }
}

/// Removing `c` from two strings joined is removing it from each.
pub proof fn lemma_remove_concat(x: Seq<char>, y: Seq<char>, c: char)
    ensures
        remove_char(x + y, c) == remove_char(x, c) + remove_char(y, c),
    decreases y.len(),
{
    if y.len() == 0 {
        assert(x + y =~= x);
        assert(remove_char(x, c) + remove_char(y, c) =~= remove_char(x, c));
    } else {
        lemma_remove_concat(x, y.drop_last(), c);
        assert((x + y).drop_last() =~= x + y.drop_last());
        assert((x + y).last() == y.last());
        if y.last() != c {
            assert(remove_char(x, c) + remove_char(y.drop_last(), c).push(y.last()) =~= (
            remove_char(x, c) + remove_char(y.drop_last(), c)).push(y.last()));
        }
    }
}

/// Digits with commas among them are digits once the commas are removed.
pub proof fn lemma_remove_commas_digits(s: Seq<char>)
    requires
        forall|i: int| 0 <= i < s.len() ==> is_ascii_digit(#[trigger] s[i]) || s[i] == ',',
    ensures
        all_digits(remove_char(s, ',')),
    decreases s.len(),
{
    if s.len() > 0 {
        lemma_remove_commas_digits(s.drop_last());
        assert(s.drop_last().len() == s.len() - 1);
        assert(forall|i: int| 0 <= i < s.len() - 1 ==> s.drop_last()[i] == s[i]);
        let r = remove_char(s.drop_last(), ',');
        if s.last() != ',' {
            assert(is_ascii_digit(s[s.len() - 1]));
            assert forall|i: int| 0 <= i < r.push(s.last()).len() implies is_ascii_digit(
                #[trigger] r.push(s.last())[i],
            ) by {
                if i < r.len() {
                    assert(r.push(s.last())[i] == r[i]);
                }
            }
        }
    }
}

/// Where `d` occurs at `i` and nowhere before, `find` gives `i`.
pub proof fn lemma_find_at(s: Seq<char>, d: Seq<char>, i: int)
    requires
        occurs_at(s, d, i),
        forall|k: int| 0 <= k < i ==> !occurs_at(s, d, k),
    ensures
        find(s, d) == Some(i),
{
    lemma_find(s, d);
}

/// Where `d` occurs at `i` and nowhere before, `split_once` cuts there.
pub proof fn lemma_split_once_at(s: Seq<char>, d: Seq<char>, i: int)
    requires
        occurs_at(s, d, i),
        forall|k: int| 0 <= k < i ==> !occurs_at(s, d, k),
    ensures
        split_once(s, d) == Some((s.subrange(0, i), s.subrange(i + d.len(), s.len() as int))),
{
    lemma_find_at(s, d, i);
}

// ---------------------------------------------------------------------------
// Executable helpers
// ---------------------------------------------------------------------------

/// Calls `String::push`, which appends `c` to `s`.
#[verifier::external_body]
pub(crate) fn push_char(s: &mut String, c: char)
    ensures
        final(s)@ == old(s)@.push(c),
{
    s.push(c);
}

/// The characters of `s`, in order.
pub fn chars_of(s: &str) -> (v: Vec<char>)
    ensures
        v@ == s@,
{
    let n = s.unicode_len();
    let mut v: Vec<char> = Vec::new();
    let mut i: usize = 0;
    while i < n
        invariant
            n == s@.len(),
            i <= n,
            v@ == s@.subrange(0, i as int),
        decreases n - i,
    {
        v.push(s.get_char(i));
        i += 1;
    }
    v
}

/// A `String` holding the characters of `v`.
pub fn string_from_chars(v: &[char]) -> (s: String)
    ensures
        s@ == v@,
{
    let mut s = String::new();
    let mut i: usize = 0;
    while i < v.len()
        invariant
            i <= v@.len(),
            s@ == v@.subrange(0, i as int),
        decreases v@.len() - i,
    {
        push_char(&mut s, v[i]);
        i += 1;
    }
    s
}

/// `pat` occurs in `s` at `i`.
pub fn occurs_at_exec(s: &[char], pat: &[char], i: usize) -> (b: bool)
    ensures
        b == occurs_at(s@, pat@, i as int),
{
    if i > s.len() || pat.len() > s.len() - i {
        return false;
    }
    let mut k: usize = 0;
    while k < pat.len()
        invariant
            i + pat@.len() <= s@.len(),
            i + pat.len() <= s.len(),
            k <= pat@.len(),
            forall|m: int| 0 <= m < k ==> s@[i + m] == pat@[m],
        decreases pat@.len() - k,
    {
        if s[i + k] != pat[k] {
            assert(s@.subrange(i as int, i + pat@.len())[k as int] != pat@[k as int]);
            return false;
        }
        k += 1;
    }
    assert(s@.subrange(i as int, i + pat@.len()) =~= pat@);
    true
}

/// The first index where `pat` occurs in `s`.
pub fn find_exec(s: &[char], pat: &[char]) -> (r: Option<usize>)
    ensures
        r matches Some(i) ==> find(s@, pat@) == Some(i as int),
        r is None ==> find(s@, pat@) is None,
{
    if pat.len() > s.len() {
        return None;
    }
    let last = s.len() - pat.len();
    let mut i: usize = 0;
    loop
        invariant
            last == s@.len() - pat@.len(),
            i <= last,
            find_from(s@, pat@, 0) == find_from(s@, pat@, i as int),
        decreases last - i,
    {
        if occurs_at_exec(s, pat, i) {
            return Some(i);
        }
        if i == last {
            assert(find_from(s@, pat@, i + 1) is None);
            return None;
        }
        i += 1;
    }
}

/// The index of the first `c` in `s`.
pub fn find_char(s: &[char], c: char) -> (r: Option<usize>)
    ensures
        r matches Some(i) ==> find(s@, seq![c]) == Some(i as int) && i < s@.len() && s@[i as int]
            == c,
        r is None ==> find(s@, seq![c]) is None,
{
    let pat = vec![c];
    assert(pat@ =~= seq![c]);
    let r = find_exec(s, pat.as_slice());
    proof {
        lemma_find(s@, seq![c]);
        if let Some(i) = r {
            assert(occurs_at(s@, seq![c], i as int));
            assert(s@.subrange(i as int, i + 1) == seq![c]);
            assert(s@.subrange(i as int, i + 1)[0] == s@[i as int]);
        }
    }
    r
}

/// `s` starts with `p`.
pub fn starts_with_exec(s: &[char], p: &[char]) -> (b: bool)
    ensures
        b == starts_with(s@, p@),
{
    occurs_at_exec(s, p, 0)
}

/// `s` contains `pat`.
pub fn contains_exec(s: &[char], pat: &[char]) -> (b: bool)
    ensures
        b == contains(s@, pat@),
{
    find_exec(s, pat).is_some()
}

/// `s` contains the string `pat`.
pub fn str_contains(s: &str, pat: &str) -> (b: bool)
    ensures
        b == contains(s@, pat@),
{
    let sc = chars_of(s);
    let pc = chars_of(pat);
    contains_exec(sc.as_slice(), pc.as_slice())
}

/// `s` without the prefix `p` (as `str::strip_prefix`).
pub fn strip_prefix_exec<'a>(s: &'a str, p: &str) -> (r: Option<&'a str>)
    ensures
        r matches Some(t) ==> strip_prefix(s@, p@) == Some(t@),
        r is None ==> strip_prefix(s@, p@) is None,
{
    let sc = chars_of(s);
    let pc = chars_of(p);
    if starts_with_exec(sc.as_slice(), pc.as_slice()) {
        Some(s.substring_char(pc.len(), sc.len()))
    } else {
        None
    }
}

/// `s` without the suffix `p` (as `str::strip_suffix`).
pub fn strip_suffix_exec<'a>(s: &'a str, p: &str) -> (r: Option<&'a str>)
    ensures
        r matches Some(t) ==> strip_suffix(s@, p@) == Some(t@),
        r is None ==> strip_suffix(s@, p@) is None,
{
    let sc = chars_of(s);
    let pc = chars_of(p);
    if pc.len() > sc.len() {
        return None;
    }
    let start = sc.len() - pc.len();
    if occurs_at_exec(sc.as_slice(), pc.as_slice(), start) {
        Some(s.substring_char(0, start))
    } else {
        None
    }
}

/// The parts of `s` around the first `d` (as `str::split_once`).
pub fn split_once_exec<'a>(s: &'a str, d: &str) -> (r: Option<(&'a str, &'a str)>)
    ensures
        r matches Some((a, b)) ==> split_once(s@, d@) == Some((a@, b@)),
        r is None ==> split_once(s@, d@) is None,
{
    let sc = chars_of(s);
    let dc = chars_of(d);
    match find_exec(sc.as_slice(), dc.as_slice()) {
        Some(i) => {
            proof {
                lemma_find(s@, d@);
                assert(occurs_at(s@, d@, i as int));
                assert(i + dc@.len() <= sc@.len());
            }
            assert(i + dc.len() <= sc.len());
            let a = s.substring_char(0, i);
            let b = s.substring_char(i + dc.len(), sc.len());
            Some((a, b))
        },
        None => None,
    }
}

/// The pieces of `s` between the occurrences of `c` (as `str::split`).
pub fn split_on_exec(s: &[char], c: char) -> (parts: Vec<Vec<char>>)
    ensures
        char_views(parts@) == split_on(s@, c),
{
    let mut done: Vec<Vec<char>> = Vec::new();
    let mut cur: Vec<char> = Vec::new();
    let mut i: usize = 0;
    assert(s@.subrange(0, 0) =~= Seq::<char>::empty());
    assert(char_views(done@).push(cur@) =~= split_on(s@.subrange(0, 0), c));
    while i < s.len()
        invariant
            i <= s@.len(),
            char_views(done@).push(cur@) =~= split_on(s@.subrange(0, i as int), c),
        decreases s@.len() - i,
    {
        let ghost prev = s@.subrange(0, i as int);
        assert(s@.subrange(0, i + 1).drop_last() =~= prev);
        proof {
            lemma_split_on_len(prev, c);
        }
        let ghost old_done = char_views(done@);
        let ghost old_vec = done@;
        let ghost old_cur = cur@;
        if s[i] == c {
            let finished = cur;
            done.push(finished);
            cur = Vec::new();
            assert(done@ =~= old_vec.push(done@.last()));
            assert(char_views(done@) =~= old_done.push(old_cur));
            assert(split_on(s@.subrange(0, i + 1), c) =~= split_on(prev, c).push(Seq::<char>::empty()));
        } else {
            cur.push(s[i]);
            assert(char_views(done@) =~= old_done);
            assert(split_on(s@.subrange(0, i + 1), c) =~= split_on(prev, c).update(
                split_on(prev, c).len() - 1,
                split_on(prev, c).last().push(s@[i as int]),
            ));
        }
        i += 1;
    }
    assert(s@.subrange(0, s@.len() as int) =~= s@);
    let ghost old_vec = done@;
    let ghost old_cur = cur@;
    done.push(cur);
    assert(done@ =~= old_vec.push(done@.last()));
    assert(char_views(done@) =~= char_views(old_vec).push(old_cur));
    done
}

/// `s` with every `c` removed.
pub fn remove_char_exec(s: &[char], c: char) -> (r: Vec<char>)
    ensures
        r@ == remove_char(s@, c),
{
    let mut r: Vec<char> = Vec::new();
    let mut i: usize = 0;
    assert(s@.subrange(0, 0) =~= Seq::<char>::empty());
    while i < s.len()
        invariant
            i <= s@.len(),
            r@ == remove_char(s@.subrange(0, i as int), c),
        decreases s@.len() - i,
    {
        assert(s@.subrange(0, i + 1).drop_last() =~= s@.subrange(0, i as int));
        if s[i] != c {
            r.push(s[i]);
        }
        i += 1;
    }
    assert(s@.subrange(0, s@.len() as int) =~= s@);
    r
}

/// What `str::parse::<u64>` gives for the characters `s`.
pub fn parse_u64_exec(s: &[char]) -> (r: Option<u64>)
    ensures
        r == parse_u64(s@),
{
    let mut start: usize = 0;
    if s.len() > 0 && s[0] == '+' {
        start = 1;
    }
    let ghost b = unsigned_body(s@);
    assert(b =~= s@.subrange(start as int, s@.len() as int));
    if start >= s.len() {
        assert(b.len() == 0);
        return None;
    }
    let mut acc: u64 = 0;
    let mut i: usize = start;
    assert(b.subrange(0, 0) =~= Seq::<char>::empty());
    while i < s.len()
        invariant
            start <= i <= s@.len(),
            b == unsigned_body(s@),
            b =~= s@.subrange(start as int, s@.len() as int),
            all_digits(b.subrange(0, i - start)),
            acc as nat == digits_value(b.subrange(0, i - start)),
        decreases s@.len() - i,
    {
        let ch = s[i];
        let ghost j: int = i - start;
        assert(b.subrange(0, j + 1).drop_last() =~= b.subrange(0, j));
        if !('0' <= ch && ch <= '9') {
            assert(b[j] == ch);
            assert(!is_ascii_digit(b[j]));
            assert(!all_digits(b));
            return None;
        }
        let d = (ch as u32 - '0' as u32) as u64;
        if acc > (u64::MAX - d) / 10 {
            proof {
                assert(all_digits(b.subrange(0, j + 1)));
                lemma_digits_value_prefix(b, j + 1);
                assert(digits_value(b.subrange(0, j + 1)) == acc * 10 + d);
                assert(acc * 10 + d > u64::MAX);
            }
            return None;
        }
        acc = acc * 10 + d;
        i += 1;
        assert(all_digits(b.subrange(0, i - start)));
    }
    assert(b.subrange(0, b.len() as int) =~= b);
    Some(acc)
}

/// What `str::parse::<usize>` gives for the characters `s`.
pub fn parse_usize_exec(s: &[char]) -> (r: Option<usize>)
    ensures
        r == parse_usize(s@),
{
    match parse_u64_exec(s) {
        Some(v) => {
            if v <= usize::MAX as u64 {
                Some(v as usize)
            } else {
                None
            }
        },
        None => {
            None
        },
    }
}

/// Whether `a` and `b` hold the same characters.
pub fn str_eq(a: &str, b: &str) -> (r: bool)
    ensures
        r == (a@ == b@),
{
    let ac = chars_of(a);
    let bc = chars_of(b);
    if ac.len() != bc.len() {
        return false;
    }
    let r = occurs_at_exec(ac.as_slice(), bc.as_slice(), 0);
    assert(ac@.subrange(0, bc@.len() as int) =~= ac@);
    r
}

} // verus!
