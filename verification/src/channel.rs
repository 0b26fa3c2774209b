//! Channel types.

use vstd::prelude::*;
use vstd::std_specs::convert::FromSpecImpl;
use crate::error::IdErrorView;
use crate::id::all_id_chars;
use crate::text::{chars_of, strip_prefix, strip_prefix_exec};

verus! {

/// The part of `s` that names a channel: `s` without the channel URL prefix.
pub open spec fn strip_channel_url(s: Seq<char>) -> Seq<char> {
    match strip_prefix(s, "https://www.youtube.com/channel/"@) {
        Some(t) => t,
        None => s,
    }
}

/// What parsing a channel [`Id`] from `s` gives.
pub open spec fn spec_channel_id(s: Seq<char>) -> Result<Seq<char>, IdErrorView> {
    let id = strip_channel_url(s);
    if !all_id_chars(id) {
        Err(IdErrorView::InvalidId(s))
    } else if id.len() != 24 {
        Err(IdErrorView::InvalidLength(id.len()))
    } else {
        Ok(id)
    }
}

/// An [`Id`](crate::id::Id) describing a Channel.
#[derive(Debug, Clone, Copy)]
pub struct Id(crate::id::Id<24>);

impl View for Id {
    type V = Seq<char>;

    closed spec fn view(&self) -> Seq<char> {
        self.0.text()
    }
}

/// The error produced when an invalid channel [`Id`] is encountered.
#[derive(Debug, Clone)]
pub enum IdError {
    /// An invalid [`Id`] was found. An [`Id`] is only valid when all
    /// characters are `0..=9`, `a..=z`, `A..=Z`, `_` or `-`.
    InvalidId(String),
    /// An [`Id`] had an invalid length. All [`Id`]s have to be 24 characters
    /// long.
    InvalidLength(usize),
}

impl View for IdError {
    type V = IdErrorView;

    open spec fn view(&self) -> IdErrorView {
        match self {
            IdError::InvalidId(s) => IdErrorView::InvalidId(s@),
            IdError::InvalidLength(n) => IdErrorView::InvalidLength(*n as nat),
        }
    }
}

impl From<crate::error::Id<24>> for IdError {
    fn from(val: crate::error::Id<24>) -> (r: Self) {
        match val {
            crate::error::Id::InvalidId(s) => IdError::InvalidId(s),
            crate::error::Id::InvalidLength(found) => IdError::InvalidLength(found),
        }
    }
}

impl FromSpecImpl<crate::error::Id<24>> for IdError {
    open spec fn obeys_from_spec() -> bool {
        true
    }

    open spec fn from_spec(val: crate::error::Id<24>) -> IdError {
        match val {
            crate::error::Id::InvalidId(s) => IdError::InvalidId(s),
            crate::error::Id::InvalidLength(found) => IdError::InvalidLength(found),
        }
    }
}

impl Id {
    /// The identifier is made of 24 valid characters.
    pub closed spec fn wf(self) -> bool {
        self.0.wf()
    }

    /// Parses a channel [`Id`] from a bare identifier or a channel URL.
    pub fn from_str(s: &str) -> (r: Result<Id, IdError>)
        ensures
            r matches Ok(id) ==> id.wf() && spec_channel_id(s@) == Ok::<Seq<char>, IdErrorView>(
                id@,
            ),
            r matches Err(e) ==> spec_channel_id(s@) == Err::<Seq<char>, IdErrorView>(e@),
    {
        let id = match strip_prefix_exec(s, "https://www.youtube.com/channel/") {
            Some(t) => t,
            None => s,
        };
        let chars = chars_of(id);
        if crate::id::validate_chars(chars.as_slice()) {
            match crate::id::Id::<24>::from_chars(chars.as_slice()) {
                Ok(inner) => Ok(Id(inner)),
                Err(e) => Err(IdError::from(e)),
            }
        } else {
            Err(IdError::InvalidId(s.to_owned()))
        }
    }

    /// The characters of the identifier.
    pub fn as_string(&self) -> (s: String)
        ensures
            s@ == self@,
    {
        self.0.as_string()
    }
}

/// A channel may be named by its bare identifier or by its URL: for every
/// text `x` made of identifier characters, parsing the channel URL that ends in
/// `x` gives what parsing `x` gives.
pub proof fn law_channel_url_prefix(x: Seq<char>)
    requires
        all_id_chars(x),
    ensures
        spec_channel_id("https://www.youtube.com/channel/"@ + x) == spec_channel_id(x),
{
    let p = "https://www.youtube.com/channel/"@;
    reveal_strlit("https://www.youtube.com/channel/");
    assert((p + x).subrange(0, p.len() as int) =~= p);
    assert((p + x).subrange(p.len() as int, (p + x).len() as int) =~= x);
    if x.len() >= p.len() {
        assert(x[5] != p[5]);
        assert(x.subrange(0, p.len() as int)[5] == x[5]);
    }
    assert(strip_channel_url(x) == x);
}

/// Parsing the characters of a well-formed channel [`Id`] gives that [`Id`]
/// back.
pub proof fn law_channel_id_round_trip(id: Id)
    requires
        id.wf(),
    ensures
        spec_channel_id(id@) == Ok::<Seq<char>, IdErrorView>(id@),
{
    let x = id@;
    let p = "https://www.youtube.com/channel/"@;
    reveal_strlit("https://www.youtube.com/channel/");
    id.0.lemma_valid();
    if x.len() >= p.len() {
        assert(x.subrange(0, p.len() as int)[5] == x[5]);
    }
    assert(strip_channel_url(x) == x);
}

impl PartialEq for Id {
    fn eq(&self, other: &Self) -> (b: bool) {
        self.0.same(&other.0)
    }
}

impl vstd::std_specs::cmp::PartialEqSpecImpl for Id {
    open spec fn obeys_eq_spec() -> bool {
        true
    }

    open spec fn eq_spec(&self, other: &Id) -> bool {
        self@ == other@
    }
}

impl Eq for Id {
}

impl std::str::FromStr for Id {
    type Err = IdError;

    fn from_str(s: &str) -> (r: Result<Self, Self::Err>)
        ensures
            r matches Ok(id) ==> id.wf() && spec_channel_id(s@) == Ok::<Seq<char>, IdErrorView>(id@),
            r matches Err(e) ==> spec_channel_id(s@) == Err::<Seq<char>, IdErrorView>(e@),
    {
        Id::from_str(s)
    }
}

} // verus!
