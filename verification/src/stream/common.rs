//! What every stream has, and the address it is downloaded from.

use vstd::prelude::*;
use vstd::utf8::{decode_utf8, encode_utf8, valid_utf8};
use crate::player::{plan_applicable, run_plan, Cipher, CipherPlan};
use crate::text::str_eq;
use crate::youtube::player_response::CommonFormat;

verus! {

/// The key-value pairs, in order, that `serde_urlencoded::from_str` reads from
/// the URL-encoded text `text`, if it reads it.
pub uninterp spec fn urlencoded_pairs(text: Seq<char>) -> Option<Seq<(Seq<char>, Seq<char>)>>;

/// The characters held by pairs of strings.
pub open spec fn pair_views(v: Seq<(String, String)>) -> Seq<(Seq<char>, Seq<char>)> {
    Seq::new(v.len(), |i: int| (v[i].0@, v[i].1@))
}

/// Calls `serde_urlencoded::from_str` to read `text` as a list of key-value
/// pairs; the result is the named one (`urlencoded_pairs`).
#[verifier::external_body]
fn decode_urlencoded(text: &str) -> (r: Option<Vec<(String, String)>>)
    ensures
        (match r {
            Some(v) => urlencoded_pairs(text@) == Some(pair_views(v@)),
            None => urlencoded_pairs(text@) is None,
        }),
{
    serde_urlencoded::from_str::<Vec<(String, String)>>(text).ok()
}

/// The query of the URL `url`, as `reqwest::Url::parse` and then `query`
/// give it: `None` where the URL does not parse, `Some(None)` where it has no
/// query.
pub uninterp spec fn url_query(url: Seq<char>) -> Option<Option<Seq<char>>>;

/// Calls `reqwest::Url::parse(url)` and then `query` on it; the result is the
/// named one (`url_query`).
#[verifier::external_body]
fn parse_url_query(url: &str) -> (r: Option<Option<String>>)
    ensures
        (match r {
            Some(Some(q)) => url_query(url@) == Some(Some(q@)),
            Some(None) => url_query(url@) == Some(None::<Seq<char>>),
            None => url_query(url@) is None,
        }),
{
    match reqwest::Url::parse(url) {
        Ok(u) => Some(u.query().map(|q| q.to_string())),
        Err(_) => None,
    }
}

/// The text of the URL `url` once its query is replaced by `query`, as
/// `reqwest::Url::parse`, `set_query` and `as_str` give it.
pub uninterp spec fn url_with_query(url: Seq<char>, query: Seq<char>) -> Seq<char>;

/// Calls `reqwest::Url::parse(url)`, then `set_query(Some(query))` and
/// `as_str` on it; the result is the named one (`url_with_query`). It is
/// `None` exactly where the URL does not parse, which is where `url_query`
/// is `None`, as both parse the same text.
#[verifier::external_body]
fn replace_url_query(url: &str, query: &str) -> (r: Option<String>)
    ensures
        (match r {
            Some(s) => url_query(url@) is Some && s@ == url_with_query(url@, query@),
            None => url_query(url@) is None,
        }),
{
    match reqwest::Url::parse(url) {
        Ok(mut u) => {
            u.set_query(Some(query));
            Some(u.as_str().to_string())
        },
        Err(_) => None,
    }
}

/// The value of the last pair with key `key` (as a map built from the pairs
/// in order keeps it).
pub open spec fn lookup(pairs: Seq<(Seq<char>, Seq<char>)>, key: Seq<char>) -> Option<Seq<char>>
    decreases pairs.len(),
{
    if pairs.len() == 0 {
        None
    } else if pairs.last().0 == key {
        Some(pairs.last().1)
    } else {
        lookup(pairs.drop_last(), key)
    }
}

/// Of several pairs with one key, the last one counts: a pair added at the
/// end is what its key gives, and the other keys give what they gave.
pub proof fn law_lookup_last(
    pairs: Seq<(Seq<char>, Seq<char>)>,
    k: Seq<char>,
    v: Seq<char>,
    key: Seq<char>,
)
    ensures
        lookup(pairs.push((k, v)), k) == Some(v),
        key != k ==> lookup(pairs.push((k, v)), key) == lookup(pairs, key),
{
    assert(pairs.push((k, v)).drop_last() =~= pairs);
}

/// The scrambled signature (`s`), the name of the signature parameter (`sp`)
/// and the address (`url`) among the pairs of a signature cipher, where all
/// three are there.
pub open spec fn spec_cipher_fields(pairs: Seq<(Seq<char>, Seq<char>)>) -> Option<
    (Seq<char>, Seq<char>, Seq<char>),
> {
    match (lookup(pairs, "s"@), lookup(pairs, "sp"@), lookup(pairs, "url"@)) {
        (Some(s), Some(sp), Some(url)) => Some((s, sp, url)),
        _ => None,
    }
}

/// The value of the last pair with key `key`.
fn lookup_exec(pairs: &Vec<(String, String)>, key: &str) -> (r: Option<String>)
    ensures
        (match r {
            Some(v) => lookup(pair_views(pairs@), key@) == Some(v@),
            None => lookup(pair_views(pairs@), key@) is None,
        }),
{
    let ghost all = pair_views(pairs@);
    let mut i: usize = pairs.len();
    assert(all.subrange(0, i as int) =~= all);
    while i > 0
        invariant
            i <= pairs@.len(),
            all == pair_views(pairs@),
            lookup(all, key@) == lookup(all.subrange(0, i as int), key@),
        decreases i,
    {
        let ghost pre = all.subrange(0, i as int);
        proof {
            assert(pre.last() == all[i - 1]);
            assert(pre.drop_last() =~= all.subrange(0, i - 1));
        }
        if str_eq(pairs[i - 1].0.as_str(), key) {
            return Some(pairs[i - 1].1.clone());
        }
        i -= 1;
    }
    proof {
        assert(all.subrange(0, 0) =~= Seq::<(Seq<char>, Seq<char>)>::empty());
    }
    None
}

/// The scrambled signature, the name of the signature parameter and the
/// address among the pairs of a signature cipher, where all three are there.
pub fn cipher_fields(pairs: &Vec<(String, String)>) -> (r: Option<(String, String, String)>)
    ensures
        (match r {
            Some((s, sp, url)) => spec_cipher_fields(pair_views(pairs@)) == Some((s@, sp@, url@)),
            None => spec_cipher_fields(pair_views(pairs@)) is None,
        }),
{
    let s = lookup_exec(pairs, "s");
    let sp = lookup_exec(pairs, "sp");
    let url = lookup_exec(pairs, "url");
    proof {
        reveal_strlit("s");
        reveal_strlit("sp");
        reveal_strlit("url");
    }
    match (s, sp, url) {
        (Some(s), Some(sp), Some(url)) => Some((s, sp, url)),
        _ => None,
    }
}

/// The fields of the signature cipher `sc`, where it reads and has them.
pub open spec fn cipher_parts(sc: Seq<char>) -> Option<(Seq<char>, Seq<char>, Seq<char>)> {
    match urlencoded_pairs(sc) {
        Some(pairs) => spec_cipher_fields(pairs),
        None => None,
    }
}

/// The real signature that `plan` makes of the scrambled signature `s`.
pub open spec fn deciphered(plan: Seq<Cipher>, s: Seq<char>) -> Seq<char> {
    decode_utf8(run_plan(plan, encode_utf8(s)))
}

/// The address of the stream described by `f` can be made with the cipher
/// plan `plan`: it is given plainly, or a signature cipher is given that
/// reads, holds a signature that the plan turns into text, and holds an
/// address that parses and has a query.
pub open spec fn url_readable(f: CommonFormat, plan: Seq<Cipher>) -> bool {
    match f.url {
        Some(_) => true,
        None => match f.signature_cipher {
            None => false,
            Some(sc) => match cipher_parts(sc@) {
                None => false,
                Some((s, _, u)) => {
                    &&& plan_applicable(plan, encode_utf8(s))
                    &&& valid_utf8(run_plan(plan, encode_utf8(s)))
                    &&& url_query(u) matches Some(Some(_))
                },
            },
        },
    }
}

/// The address of the stream described by `f`: the plain one, or the cipher's
/// address with `&<sp>=<signature>` added to its query.
pub open spec fn spec_stream_url(f: CommonFormat, plan: Seq<Cipher>) -> Seq<char> {
    match f.url {
        Some(u) => u@,
        None => {
            let (s, sp, u) = cipher_parts(f.signature_cipher.unwrap()@).unwrap();
            url_with_query(
                u,
                url_query(u).unwrap().unwrap() + "&"@ + sp + "="@ + deciphered(plan, s),
            )
        },
    }
}

/// A stream whose address is given plainly is downloaded from that address,
/// whatever the player's cipher plan.
pub proof fn law_plain_url(f: CommonFormat, p: Seq<Cipher>, q: Seq<Cipher>)
    requires
        f.url is Some,
    ensures
        url_readable(f, p),
        spec_stream_url(f, p) == f.url.unwrap()@,
        spec_stream_url(f, p) == spec_stream_url(f, q),
{
}

/// A stream given by a signature cipher is downloaded from the cipher's
/// address with its whole query kept, every parameter of it, and
/// `&<sp>=<signature>` added after it, where `s`, `sp` and `url` are the
/// cipher's fields, `q` the address's query and the signature what the plan
/// makes of `s`.
pub proof fn law_signed_url(
    f: CommonFormat,
    plan: Seq<Cipher>,
    pairs: Seq<(Seq<char>, Seq<char>)>,
    s: Seq<char>,
    sp: Seq<char>,
    u: Seq<char>,
    q: Seq<char>,
)
    requires
        f.url is None,
        f.signature_cipher matches Some(c) && urlencoded_pairs(c@) == Some(pairs),
        lookup(pairs, "s"@) == Some(s),
        lookup(pairs, "sp"@) == Some(sp),
        lookup(pairs, "url"@) == Some(u),
        url_query(u) == Some(Some(q)),
    ensures
        spec_stream_url(f, plan) == url_with_query(
            u,
            q + "&"@ + sp + "="@ + decode_utf8(run_plan(plan, encode_utf8(s))),
        ),
        url_readable(f, plan) == (plan_applicable(plan, encode_utf8(s)) && valid_utf8(
            run_plan(plan, encode_utf8(s)),
        )),
{
}

/// What every [`Stream`](super::Stream) has.
pub struct Stream {
    format: CommonFormat,
}

impl Stream {
    /// What the player response says of the stream.
    pub closed spec fn format(self) -> CommonFormat {
        self.format
    }

    /// The stream described by `format`.
    pub fn new(format: CommonFormat) -> (s: Stream)
        ensures
            s.format() == format,
    {
        Stream { format }
    }

    /// The address of a [`Stream`], made with the cipher plan of the player.
    pub fn url(&self, plan: &CipherPlan) -> (url: String)
        requires
            url_readable(self.format(), plan@),
        ensures
            url@ == spec_stream_url(self.format(), plan@),
    {
        match &self.format.url {
            Some(url) => url.clone(),
            None => {
                let signature_cipher = self.format.signature_cipher.as_ref().unwrap();
                let pairs = decode_urlencoded(signature_cipher.as_str()).unwrap();
                let (s, sp, address) = cipher_fields(&pairs).unwrap();
                let signature = plan.run(s);
                let query = parse_url_query(address.as_str()).unwrap().unwrap();
                let mut new_query = query;
                new_query.append("&");
                new_query.append(sp.as_str());
                new_query.append("=");
                new_query.append(signature.as_str());
                proof {
                    reveal_strlit("&");
                    reveal_strlit("=");
                }
                replace_url_query(address.as_str(), new_query.as_str()).unwrap()
            },
        }
    }

    /// The address of a [`Stream`], made with the cipher plan of the player,
    /// where it can be made.
    pub fn checked_url(&self, plan: &CipherPlan) -> (url: Option<String>)
        ensures
            (match url {
                Some(u) => url_readable(self.format(), plan@) && u@ == spec_stream_url(
                    self.format(),
                    plan@,
                ),
                None => !url_readable(self.format(), plan@),
            }),
    {
        if self.format.url.is_some() {
            return Some(self.url(plan));
        }
        let signature_cipher = match &self.format.signature_cipher {
            Some(sc) => sc,
            None => {
                return None;
            },
        };
        let pairs = match decode_urlencoded(signature_cipher.as_str()) {
            Some(p) => p,
            None => {
                return None;
            },
        };
        let (s, _, address) = match cipher_fields(&pairs) {
            Some(f) => f,
            None => {
                return None;
            },
        };
        if !plan.can_run(&s) {
            return None;
        }
        match parse_url_query(address.as_str()) {
            Some(Some(_)) => Some(self.url(plan)),
            _ => None,
        }
    }

    /// The length of a [`Stream`] in bytes, where the player response gives
    /// it.
    pub fn content_length(&self) -> (n: Option<u64>)
        ensures
            n == self.format().content_length,
    {
        self.format.content_length
    }

    /// The length of a [`Stream`] in bytes: the one the player response gives,
    /// else the one that the server's reply to a HEAD request for the stream
    /// states in its Content-Length header (`header`), else the error that the
    /// length is unknown.
    pub fn content_length_or(&self, header: Option<u64>) -> (r: crate::Result<u64>)
        ensures
            (match self.format().content_length {
                Some(n) => r matches Ok(m) && m == n,
                None => match header {
                    Some(h) => r matches Ok(m) && m == h,
                    None => r matches Err(e) && e@ == crate::error::ErrorView::UnknownContentLength,
                },
            }),
    {
        match self.format.content_length {
            Some(n) => Ok(n),
            None => match header {
                Some(h) => Ok(h),
                None => Err(crate::error::Error::UnknownContentLength),
            },
        }
    }

    /// The [mime type](https://en.wikipedia.org/wiki/Media_type) of a
    /// [`Stream`].
    pub fn mime_type(&self) -> (m: &str)
        ensures
            m@ == self.format().mime_type@,
    {
        self.format.mime_type.as_str()
    }

    /// The bitrate of a [`Stream`].
    pub fn bitrate(&self) -> (b: u64)
        ensures
            b == self.format().bitrate,
    {
        self.format.bitrate
    }

    /// The approximate duration of a [`Stream`] in milliseconds, where known.
    pub fn duration(&self) -> (d: Option<u64>)
        ensures
            d == self.format().duration,
    {
        self.format.duration
    }
}

} // verus!
