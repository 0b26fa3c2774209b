//! The documents that YouTube serves, and the rules that read their texts.

#![allow(clippy::enum_variant_names)]

use vstd::prelude::*;
use chrono::Datelike;
use crate::text::{
    all_digits, chars_of, digits_value, is_ascii_digit,
    lemma_not_starts_with, parse_u64, parse_u64_exec, split_on, split_on_exec, starts_with,
    strip_prefix, strip_prefix_exec,
};


pub mod browse;
pub mod count;
pub mod innertube;
pub mod next;
pub mod player_response;
pub mod tv_config;
pub mod video_info;
pub mod ytcfg;

verus! {

/// A list of text runs.
#[derive(Clone)]
pub struct Runs<T> {
    /// The runs, in order.
    pub runs: Vec<T>,
}

/// The runs naming a channel.
pub type ChannelNameRuns = Runs<ChannelNameRun>;

/// A run naming a channel, with a link to it.
#[derive(Clone)]
pub struct ChannelNameRun {
    /// The name of the channel.
    pub text: String,
    /// The link to the channel.
    pub navigation_endpoint: NavigationEndpoint,
}

/// A link to a page.
#[derive(Clone)]
pub struct NavigationEndpoint {
    /// The browse target of the link.
    pub browse_endpoint: BrowseEndpoint,
}

/// The browse target of a link.
#[derive(Clone)]
pub struct BrowseEndpoint {
    /// The channel that the link leads to.
    pub browse_id: crate::channel::Id,
}

/// A text: either one simple text or a list of runs.
#[derive(Clone)]
pub enum Text {
    /// A single text.
    SimpleText(SimpleText),
    /// A list of runs.
    Runs(TitleRuns),
}

/// A single text.
#[derive(Clone)]
pub struct SimpleText {
    /// The text.
    pub simple_text: String,
}

impl SimpleText {
    /// The text.
    pub fn as_str(&self) -> (s: &str)
        ensures
            s@ == self.simple_text@,
    {
        self.simple_text.as_str()
    }
}

impl Default for SimpleText {
    fn default() -> (s: Self)
        ensures
            s.simple_text@ == Seq::<char>::empty(),
    {
        SimpleText { simple_text: String::new() }
    }
}

impl std::ops::Deref for SimpleText {
    type Target = str;

    fn deref(&self) -> (s: &str)
        ensures
            s@ == self.simple_text@,
    {
        self.simple_text.as_str()
    }
}

/// The runs of a title.
pub type TitleRuns = Runs<TitleRun>;

/// A run of a title.
#[derive(Clone)]
pub struct TitleRun {
    /// The text of the run.
    pub text: String,
}

/// A badge shown beside a channel.
#[derive(Clone)]
pub struct Badge {
    /// How the badge is drawn.
    pub metadata_badge_renderer: MetadataBadgeRenderer,
}

/// How a badge is drawn.
#[derive(Clone)]
pub struct MetadataBadgeRenderer {
    /// The style of the badge.
    pub style: String,
}

/// A list of thumbnails.
#[derive(Clone)]
pub struct Thumbnails {
    /// The thumbnails.
    pub thumbnails: Vec<crate::Thumbnail>,
}

impl Default for Thumbnails {
    fn default() -> (t: Self)
        ensures
            t.thumbnails@.len() == 0,
    {
        Thumbnails { thumbnails: Vec::new() }
    }
}

/// An item that stands for the rest of a list, fetched with a token.
#[derive(Clone)]
pub struct ContinuationItemRenderer {
    /// Where the rest of the list is fetched.
    pub continuation_endpoint: ContinuationEndpoint,
}

impl ContinuationItemRenderer {
    /// The token with which the rest of the list is fetched.
    pub fn get(&self) -> (token: String)
        ensures
            token@ == self.continuation_endpoint.continuation_command.token@,
    {
        self.continuation_endpoint.continuation_command.token.clone()
    }
}

/// Where the rest of a list is fetched.
#[derive(Clone)]
pub struct ContinuationEndpoint {
    /// The command that fetches it.
    pub continuation_command: ContinuationCommand,
}

/// The command that fetches the rest of a list.
#[derive(Clone)]
pub struct ContinuationCommand {
    /// The token that names the rest of the list.
    pub token: String,
}


// ---------------------------------------------------------------------------
// Channel subscriber counts
// ---------------------------------------------------------------------------

/// `10` to the power `k`.
pub open spec fn pow10(k: nat) -> nat
    decreases k,
{
    if k == 0 {
        1
    } else {
        10 * pow10((k - 1) as nat)
    }
}

/// `v`, or `u64::MAX` where `v` is larger.
pub open spec fn saturate(v: nat) -> u64 {
    if v > u64::MAX {
        u64::MAX
    } else {
        v as u64
    }
}

/// The number of decimal places that the suffix `m` (`K` or `M`) stands for.
pub open spec fn suffix_places(m: char) -> nat {
    if m == 'K' {
        3
    } else {
        6
    }
}

/// What [`parse_subscribers`] gives for `v`: where `v` ends in a digit, the
/// unsigned number it writes; where it ends in `K` or `M`, what precedes that
/// suffix read as a count of thousands or millions (see
/// [`count::scaled_reading`]); else nothing.
pub open spec fn spec_parse_subscribers(v: Seq<char>) -> Option<u64> {
    if v.len() == 0 {
        None
    } else if is_ascii_digit(v.last()) {
        parse_u64(v)
    } else if v.last() == 'K' || v.last() == 'M' {
        count::scaled_reading(v.drop_last(), suffix_places(v.last()))
    } else {
        None
    }
}

proof fn lemma_digits_value_step(s: Seq<char>, i: int)
    requires
        0 <= i < s.len(),
    ensures
        digits_value(s.subrange(0, i + 1)) == digits_value(s.subrange(0, i)) * 10 + ((s[i] as nat)
            - ('0' as nat)) as nat,
{
    assert(s.subrange(0, i + 1).drop_last() =~= s.subrange(0, i));
}

/// The value of the digits `s`, or `u64::MAX` where it is larger.
fn saturating_digits(s: &[char]) -> (r: u64)
    requires
        all_digits(s@),
    ensures
        r == saturate(digits_value(s@)),
{
    let mut acc: u64 = 0;
    let mut i: usize = 0;
    assert(s@.subrange(0, 0) =~= Seq::<char>::empty());
    while i < s.len()
        invariant
            i <= s@.len(),
            all_digits(s@),
            acc == saturate(digits_value(s@.subrange(0, i as int))),
        decreases s@.len() - i,
    {
        proof {
            lemma_digits_value_step(s@, i as int);
            assert(is_ascii_digit(s@[i as int]));
        }
        let d = (s[i] as u32 - '0' as u32) as u64;
        if acc == u64::MAX {
        } else {
            match acc.checked_mul(10) {
                Some(m) => match m.checked_add(d) {
                    Some(v) => {
                        acc = v;
                    },
                    None => {
                        acc = u64::MAX;
                    },
                },
                None => {
                    acc = u64::MAX;
                },
            }
        }
        i += 1;
    }
    assert(s@.subrange(0, s@.len() as int) =~= s@);
    acc
}

/// The number of subscribers that a count such as `164K`, `1.2M` or `87`
/// stands for; YouTube gives three significant digits.
pub fn parse_subscribers(value: &str) -> (r: Option<u64>)
    ensures
        r == spec_parse_subscribers(value@),
{
    let v = chars_of(value);
    let n = v.len();
    if n == 0 {
        return None;
    }
    let last = v[n - 1];
    if '0' <= last && last <= '9' {
        return parse_u64_exec(v.as_slice());
    }
    if last == 'K' || last == 'M' {
        let body = slice_chars(v.as_slice(), 0, n - 1);
        assert(body@ =~= v@.drop_last());
        let places: usize = if last == 'K' {
            3
        } else {
            6
        };
        count::scaled_reading_exec(body.as_slice(), places)
    } else {
        None
    }
}

/// Whether every character of `s` is one of `0..=9`.
pub fn digits_exec(s: &[char]) -> (b: bool)
    ensures
        b == all_digits(s@),
{
    let mut i: usize = 0;
    while i < s.len()
        invariant
            i <= s@.len(),
            forall|k: int| 0 <= k < i ==> is_ascii_digit(#[trigger] s@[k]),
        decreases s@.len() - i,
    {
        if !('0' <= s[i] && s[i] <= '9') {
            return false;
        }
        i += 1;
    }
    true
}

/// The characters of `s` from `from` up to `to`.
pub fn slice_chars(s: &[char], from: usize, to: usize) -> (r: Vec<char>)
    requires
        from <= to <= s@.len(),
    ensures
        r@ == s@.subrange(from as int, to as int),
{
    let mut r: Vec<char> = Vec::new();
    let mut i: usize = from;
    while i < to
        invariant
            from <= i <= to,
            to <= s@.len(),
            r@ == s@.subrange(from as int, i as int),
        decreases to - i,
    {
        r.push(s[i]);
        i += 1;
    }
    r
}


// ---------------------------------------------------------------------------
// Video lengths
// ---------------------------------------------------------------------------

/// The number of seconds that the clock fields `parts` (hours, minutes and
/// seconds, from the largest unit down) stand for.
pub open spec fn clock_value(parts: Seq<Seq<char>>) -> nat
    decreases parts.len(),
{
    if parts.len() == 0 {
        0
    } else {
        clock_value(parts.drop_last()) * 60 + match parse_u64(parts.last()) {
            Some(n) => n as nat,
            None => 0,
        }
    }
}

/// `value` is a length that [`parse_length`] can read: at most eleven fields
/// separated by `:`, each an unsigned number, worth at most `u64::MAX`
/// seconds.
pub open spec fn length_readable(value: Seq<char>) -> bool {
    let parts = split_on(value, ':');
    &&& parts.len() <= 11
    &&& forall|i: int| 0 <= i < parts.len() ==> (#[trigger] parse_u64(parts[i])) is Some
    &&& clock_value(parts) <= u64::MAX
}

/// The clock value of a prefix of the fields is at most that of all fields.
proof fn lemma_clock_value_prefix(parts: Seq<Seq<char>>, j: int)
    requires
        0 <= j <= parts.len(),
    ensures
        clock_value(parts.subrange(0, j)) <= clock_value(parts),
    decreases parts.len() - j,
{
    if j < parts.len() {
        lemma_clock_value_prefix(parts, j + 1);
        assert(parts.subrange(0, j + 1).drop_last() =~= parts.subrange(0, j));
    } else {
        assert(parts.subrange(0, j) =~= parts);
    }
}

/// The length, in seconds, that a text such as `1:02:03`, `4:05` or `59`
/// stands for.
pub fn parse_length(value: &str) -> (secs: u64)
    requires
        length_readable(value@),
    ensures
        secs == clock_value(split_on(value@, ':')),
{
    let v = chars_of(value);
    let parts = split_on_exec(v.as_slice(), ':');
    let ghost ps = split_on(value@, ':');
    assert(crate::text::char_views(parts@) =~= ps);
    let mut acc: u64 = 0;
    let mut i: usize = 0;
    assert(ps.subrange(0, 0) =~= Seq::<Seq<char>>::empty());
    while i < parts.len()
        invariant
            i <= parts@.len(),
            ps == crate::text::char_views(parts@),
            length_readable(value@),
            ps == split_on(value@, ':'),
            acc as nat == clock_value(ps.subrange(0, i as int)),
        decreases parts@.len() - i,
    {
        assert(ps[i as int] == parts@[i as int]@);
        let n = match parse_u64_exec(parts[i].as_slice()) {
            Some(n) => n,
            None => 0,
        };
        proof {
            assert(ps.subrange(0, i + 1).drop_last() =~= ps.subrange(0, i as int));
            lemma_clock_value_prefix(ps, i + 1);
        }
        acc = acc * 60 + n;
        i += 1;
    }
    assert(ps.subrange(0, ps.len() as int) =~= ps);
    acc
}

/// A length written `H:M:S` is worth `H` hours, `M` minutes and `S` seconds.
pub proof fn law_length_clock(h: Seq<char>, m: Seq<char>, s: Seq<char>)
    requires
        parse_u64(h) is Some,
        parse_u64(m) is Some,
        parse_u64(s) is Some,
    ensures
        clock_value(seq![h, m, s]) == parse_u64(h).unwrap() * 3600 + parse_u64(m).unwrap() * 60
            + parse_u64(s).unwrap(),
{
    let p = seq![h, m, s];
    assert(p.drop_last() =~= seq![h, m]);
    assert(p.drop_last().drop_last() =~= seq![h]);
    assert(p.drop_last().drop_last().drop_last() =~= Seq::<Seq<char>>::empty());
    assert(seq![h].drop_last() =~= Seq::<Seq<char>>::empty());
    assert(seq![h].last() == h);
    assert(clock_value(Seq::<Seq<char>>::empty()) == 0);
    assert(clock_value(seq![h]) == parse_u64(h).unwrap());
    assert(seq![h, m].drop_last() =~= seq![h]);
    assert(seq![h, m].last() == m);
    assert(clock_value(seq![h, m]) == parse_u64(h).unwrap() * 60 + parse_u64(m).unwrap());
    assert(p.last() == s);
}

// ---------------------------------------------------------------------------
// URLs
// ---------------------------------------------------------------------------

/// What [`strip_url_prefix`] gives: `url` without the first of the YouTube
/// domains that it starts with.
pub open spec fn spec_strip_url_prefix(url: Seq<char>) -> Seq<char> {
    match strip_prefix(url, "https://www.youtube.com/"@) {
        Some(t) => t,
        None => match strip_prefix(url, "https://m.youtube.com/"@) {
            Some(t) => t,
            None => match strip_prefix(url, "https://youtube.com/"@) {
                Some(t) => t,
                None => match strip_prefix(url, "https://youtu.be/"@) {
                    Some(t) => t,
                    None => url,
                },
            },
        },
    }
}

/// Strips the various possible domains of a YouTube URL.
pub fn strip_url_prefix(url: &str) -> (r: &str)
    ensures
        r@ == spec_strip_url_prefix(url@),
{
    match strip_prefix_exec(url, "https://www.youtube.com/") {
        Some(t) => t,
        None => match strip_prefix_exec(url, "https://m.youtube.com/") {
            Some(t) => t,
            None => match strip_prefix_exec(url, "https://youtube.com/") {
                Some(t) => t,
                None => match strip_prefix_exec(url, "https://youtu.be/") {
                    Some(t) => t,
                    None => url,
                },
            },
        },
    }
}

/// Whatever follows one of the YouTube domains is what stripping the URL
/// gives.
pub proof fn law_strip_url_prefix(rest: Seq<char>)
    ensures
        spec_strip_url_prefix("https://www.youtube.com/"@ + rest) == rest,
        spec_strip_url_prefix("https://m.youtube.com/"@ + rest) == rest,
        spec_strip_url_prefix("https://youtube.com/"@ + rest) == rest,
        spec_strip_url_prefix("https://youtu.be/"@ + rest) == rest,
{
    let p1 = "https://www.youtube.com/"@;
    let p2 = "https://m.youtube.com/"@;
    let p3 = "https://youtube.com/"@;
    let p4 = "https://youtu.be/"@;
    reveal_strlit("https://www.youtube.com/");
    reveal_strlit("https://m.youtube.com/");
    reveal_strlit("https://youtube.com/");
    reveal_strlit("https://youtu.be/");
    assert((p1 + rest).subrange(0, p1.len() as int) =~= p1);
    assert((p1 + rest).subrange(p1.len() as int, (p1 + rest).len() as int) =~= rest);
    assert((p2 + rest).subrange(0, p2.len() as int) =~= p2);
    assert((p2 + rest).subrange(p2.len() as int, (p2 + rest).len() as int) =~= rest);
    assert((p3 + rest).subrange(0, p3.len() as int) =~= p3);
    assert((p3 + rest).subrange(p3.len() as int, (p3 + rest).len() as int) =~= rest);
    assert((p4 + rest).subrange(0, p4.len() as int) =~= p4);
    assert((p4 + rest).subrange(p4.len() as int, (p4 + rest).len() as int) =~= rest);
    lemma_not_starts_with(p2 + rest, p1, 8);
    lemma_not_starts_with(p3 + rest, p1, 8);
    lemma_not_starts_with(p3 + rest, p2, 8);
    lemma_not_starts_with(p4 + rest, p1, 8);
    lemma_not_starts_with(p4 + rest, p2, 8);
    lemma_not_starts_with(p4 + rest, p3, 13);
}

// ---------------------------------------------------------------------------
// Dates
// ---------------------------------------------------------------------------

/// A calendar date.
#[derive(Debug, Clone, Copy, PartialEq, Eq)]
pub struct Date {
    /// The year.
    pub year: i32,
    /// The month, from 1 to 12.
    pub month: u32,
    /// The day of the month, from 1 to 31.
    pub day: u32,
}

/// The date, as year, month and day, that `chrono::NaiveDate::parse_from_str`
/// reads from `text` in the format `format`, if it reads one.
pub uninterp spec fn naive_date_from_str(text: Seq<char>, format: Seq<char>) -> Option<
    (i32, u32, u32),
>;

/// Calls `chrono::NaiveDate::parse_from_str(text, format)`; the result is the
/// named date (`naive_date_from_str`), whose month lies in `1..=12` and whose
/// day lies in `1..=31`, as chrono documents for `month()` and `day()`.
#[verifier::external_body]
fn parse_naive_date(text: &str, format: &str) -> (r: Option<Date>)
    ensures
        r matches Some(d) ==> naive_date_from_str(text@, format@) == Some((d.year, d.month, d.day))
            && 1 <= d.month <= 12 && 1 <= d.day <= 31,
        r is None ==> naive_date_from_str(text@, format@) is None,
{
    match chrono::NaiveDate::parse_from_str(text, format) {
        Ok(d) => Some(Date { year: d.year(), month: d.month(), day: d.day() }),
        Err(_) => None,
    }
}

/// What [`strip_date_prefix`] gives: `value` without a leading `Premiered `,
/// `Premieres ` or `Premires `.
pub open spec fn spec_strip_date_prefix(value: Seq<char>) -> Seq<char> {
    match strip_prefix(value, "Premiered "@) {
        Some(t) => t,
        None => match strip_prefix(value, "Premieres "@) {
            Some(t) => t,
            None => match strip_prefix(value, "Premires "@) {
                Some(t) => t,
                None => value,
            },
        },
    }
}

/// The date part of an upload text `[Premiered |Premieres |Premires ]<MONTH> <DAY>, <YEAR>`.
pub fn strip_date_prefix(value: &str) -> (r: &str)
    ensures
        r@ == spec_strip_date_prefix(value@),
{
    match strip_prefix_exec(value, "Premiered ") {
        Some(t) => t,
        None => match strip_prefix_exec(value, "Premieres ") {
            Some(t) => t,
            None => match strip_prefix_exec(value, "Premires ") {
                Some(t) => t,
                None => value,
            },
        },
    }
}

/// Parse a video upload date in the format
/// `[Premiered |Premieres |Premires ]<MONTH_NAME> <DAY>, <YEAR>`.
pub fn parse_date(value: &str) -> (r: Option<Date>)
    ensures
        r matches Some(d) ==> naive_date_from_str(spec_strip_date_prefix(value@), "%b %e, %Y"@)
            == Some((d.year, d.month, d.day)),
        r is None ==> naive_date_from_str(spec_strip_date_prefix(value@), "%b %e, %Y"@) is None,
{
    parse_naive_date(strip_date_prefix(value), "%b %e, %Y")
}

} // verus!
