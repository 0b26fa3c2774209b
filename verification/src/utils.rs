//! Splitting helpers on string slices.

use std::ops::RangeInclusive;
use vstd::prelude::*;
use crate::text::{split_once, split_once_exec};

verus! {

/// Calls `RangeInclusive::start`, which gives the first bound of `range`.
#[verifier::external_body]
fn range_start<'b>(range: &RangeInclusive<&'b str>) -> (s: &'b str)
    ensures
        s == range@.start,
{
    range.start()
}

/// Calls `RangeInclusive::end`, which gives the last bound of `range`.
#[verifier::external_body]
fn range_end<'b>(range: &RangeInclusive<&'b str>) -> (s: &'b str)
    ensures
        s == range@.end,
{
    range.end()
}

/// What `split_start_off` gives: the text after the first `delimiter`.
pub open spec fn spec_split_start_off(s: Seq<char>, delimiter: Seq<char>) -> Option<Seq<char>> {
    match split_once(s, delimiter) {
        Some((_, after)) => Some(after),
        None => None,
    }
}

/// What `split_end_off` gives: the text before the first `delimiter`.
pub open spec fn spec_split_end_off(s: Seq<char>, delimiter: Seq<char>) -> Option<Seq<char>> {
    match split_once(s, delimiter) {
        Some((before, _)) => Some(before),
        None => None,
    }
}

/// What `split_contained` gives: the text between the first `start` and the
/// first `end` after it.
pub open spec fn spec_split_contained(s: Seq<char>, start: Seq<char>, end: Seq<char>) -> Option<
    Seq<char>,
> {
    match spec_split_start_off(s, start) {
        Some(rest) => spec_split_end_off(rest, end),
        None => None,
    }
}

/// Splitting a string slice around delimiters.
pub trait String {
    /// The text between the first `range.start()` and the first
    /// `range.end()` that follows it.
    fn split_contained<'a>(&'a self, range: RangeInclusive<&str>) -> Option<&'a str>;

    /// The text after the first `delimiter`.
    fn split_start_off<'a>(&'a self, delimiter: &str) -> Option<&'a str>;

    /// The text before the first `delimiter`.
    fn split_end_off<'a>(&'a self, delimiter: &str) -> Option<&'a str>;
}

impl String for str {
    fn split_contained<'a>(&'a self, range: RangeInclusive<&str>) -> (r: Option<&'a str>)
        ensures
            r matches Some(t) ==> spec_split_contained(self@, range@.start@, range@.end@) == Some(
                t@,
            ),
            r is None ==> spec_split_contained(self@, range@.start@, range@.end@) is None,
    {
        let start = range_start(&range);
        let end = range_end(&range);
        match self.split_start_off(start) {
            Some(rest) => rest.split_end_off(end),
            None => None,
        }
    }

    fn split_start_off<'a>(&'a self, delimiter: &str) -> (r: Option<&'a str>)
        ensures
            r matches Some(t) ==> spec_split_start_off(self@, delimiter@) == Some(t@),
            r is None ==> spec_split_start_off(self@, delimiter@) is None,
    {
        match split_once_exec(self, delimiter) {
            Some((_, after)) => Some(after),
            None => None,
        }
    }

    fn split_end_off<'a>(&'a self, delimiter: &str) -> (r: Option<&'a str>)
        ensures
            r matches Some(t) ==> spec_split_end_off(self@, delimiter@) == Some(t@),
            r is None ==> spec_split_end_off(self@, delimiter@) is None,
    {
        match split_once_exec(self, delimiter) {
            Some((before, _)) => Some(before),
            None => None,
        }
    }
}

} // verus!
