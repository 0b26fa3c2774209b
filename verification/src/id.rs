//! The characters that YouTube identifiers are made of.

use vstd::prelude::*;
use crate::error::{Id as IdError, IdErrorView};

verus! {

/// `c` may appear in a YouTube identifier: `0..=9`, `a..=z`, `A..=Z`, `_`
/// or `-`.
pub open spec fn is_id_char(c: char) -> bool {
    ('0' <= c && c <= '9') || ('a' <= c && c <= 'z') || ('A' <= c && c <= 'Z') || c == '_' || c
        == '-'
}

/// Every character of `s` may appear in a YouTube identifier.
pub open spec fn all_id_chars(s: Seq<char>) -> bool {
    forall|i: int| 0 <= i < s.len() ==> is_id_char(#[trigger] s[i])
}

/// Whether `c` may appear in a YouTube identifier.
pub fn validate_char(c: char) -> (b: bool)
    ensures
        b == is_id_char(c),
{
    ('0' <= c && c <= '9') || ('a' <= c && c <= 'z') || ('A' <= c && c <= 'Z') || c == '_' || c
        == '-'
}

/// Whether every character of `s` may appear in a YouTube identifier.
pub fn validate_chars(s: &[char]) -> (b: bool)
    ensures
        b == all_id_chars(s@),
{
    let mut i: usize = 0;
    while i < s.len()
        invariant
            i <= s@.len(),
            forall|k: int| 0 <= k < i ==> is_id_char(#[trigger] s@[k]),
        decreases s@.len() - i,
    {
        if !validate_char(s[i]) {
            return false;
        }
        i += 1;
    }
    true
}

} // verus!

verus! {

/// The characters held by the bytes `b`, one character per byte.
pub open spec fn bytes_text(b: Seq<u8>) -> Seq<char> {
    Seq::new(b.len(), |i: int| b[i] as char)
}

/// What parsing an identifier of length `n` from `v` gives, once a URL prefix
/// has been removed: the rejected text where a character is invalid, the
/// length where it is not `n`, else the identifier's characters.
pub open spec fn spec_parse_id(v: Seq<char>, n: nat) -> Result<Seq<char>, IdErrorView> {
    if !all_id_chars(v) {
        Err(IdErrorView::InvalidId(v))
    } else if v.len() != n {
        Err(IdErrorView::InvalidLength(v.len()))
    } else {
        Ok(v)
    }
}

/// A YouTube identifier of `N` characters, each of `0..=9`, `a..=z`,
/// `A..=Z`, `_`, `-`.
#[derive(Clone, Copy, Debug)]
pub struct Id<const N: usize>([u8; N]);

impl<const N: usize> Id<N> {
    /// The identifier holds `N` characters, each valid in an identifier.
    pub closed spec fn wf(self) -> bool {
        &&& self.0@.len() == N
        &&& all_id_chars(bytes_text(self.0@))
    }

    /// The characters of the identifier.
    pub closed spec fn text(self) -> Seq<char> {
        bytes_text(self.0@)
    }

    /// A well-formed identifier has `N` valid characters.
    pub proof fn lemma_valid(self)
        requires
            self.wf(),
        ensures
            self.text().len() == N,
            all_id_chars(self.text()),
    {
    }

    /// Parses an identifier from its characters.
    pub fn from_chars(v: &[char]) -> (r: Result<Self, IdError<N>>)
        ensures
            r matches Ok(id) ==> id.wf() && spec_parse_id(v@, N as nat) == Ok::<
                Seq<char>,
                IdErrorView,
            >(id.text()),
            r matches Err(e) ==> spec_parse_id(v@, N as nat) == Err::<Seq<char>, IdErrorView>(
                e@,
            ),
    {
        if !validate_chars(v) {
            return Err(IdError::InvalidId(crate::text::string_from_chars(v)));
        }
        if v.len() != N {
            return Err(IdError::InvalidLength(v.len()));
        }
        let mut a: [u8; N] = [0u8; N];
        let mut i: usize = 0;
        while i < N
            invariant
                v@.len() == N,
                all_id_chars(v@),
                i <= N,
                a@.len() == N,
                forall|k: int| 0 <= k < i ==> (#[trigger] a@[k]) as char == v@[k],
            decreases N - i,
        {
            let c = v[i];
            assert(is_id_char(v@[i as int]));
            a[i] = c as u8;
            i += 1;
        }
        let ghost t = bytes_text(a@);
        assert(t =~= v@);
        Ok(Id(a))
    }

    /// The characters of the identifier, as a `String`.
    pub fn as_string(&self) -> (s: String)
        ensures
            s@ == self.text(),
    {
        proof {
            broadcast use vstd::array::array_len_matches_n;
            assert(self.0@.len() == N);
        }
        let mut s = String::new();
        let mut i: usize = 0;
        while i < N
            invariant
                self.0@.len() == N,
                i <= N,
                s@ == bytes_text(self.0@).subrange(0, i as int),
            decreases N - i,
        {
            crate::text::push_char(&mut s, self.0[i] as char);
            i += 1;
        }
        assert(bytes_text(self.0@).subrange(0, N as int) =~= bytes_text(self.0@));
        s
    }

    /// Whether two identifiers have the same characters.
    pub fn same(&self, other: &Self) -> (b: bool)
        ensures
            b == (self.text() == other.text()),
    {
        proof {
            broadcast use vstd::array::array_len_matches_n;
            assert(self.0@.len() == N);
            assert(other.0@.len() == N);
        }
        let mut i: usize = 0;
        while i < N
            invariant
                self.0@.len() == N,
                other.0@.len() == N,
                i <= N,
                forall|k: int| 0 <= k < i ==> self.0@[k] == other.0@[k],
            decreases N - i,
        {
            if self.0[i] != other.0[i] {
                assert(bytes_text(self.0@)[i as int] != bytes_text(other.0@)[i as int]);
                return false;
            }
            i += 1;
        }
        assert(bytes_text(self.0@) =~= bytes_text(other.0@));
        true
    }
}

} // verus!
