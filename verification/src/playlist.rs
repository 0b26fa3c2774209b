//! Playlists.

pub mod video;

use vstd::prelude::*;
use crate::error::{Id as IdError, IdErrorView};
use crate::id::all_id_chars;
use crate::text::{chars_of, lemma_not_starts_with, starts_with, starts_with_exec, strip_prefix, strip_prefix_exec};
use crate::youtube::browse::playlist::{
    MicroformatDataRenderer, Page, PlaylistItem, PlaylistSidebarPrimaryInfoRenderer,
    PlaylistSidebarSecondaryInfoRenderer,
};
use crate::youtube::browse::{alert_readable, alert_text, spec_alert_error, Result as BrowseResult};
use vstd::utf8::{
    decode_utf8, encode_utf8, encode_utf8_decode_utf8, encode_utf8_valid_utf8, has_width_1_encoding,
    is_ascii_chars, is_char_boundary, leading_byte_width_1, length_of_first_scalar,
    pop_first_scalar,
};

verus! {

/// The part of `s` that names a playlist: `s` without the playlist URL
/// prefix.
pub open spec fn strip_playlist_url(s: Seq<char>) -> Seq<char> {
    match strip_prefix(s, "https://www.youtube.com/playlist?list="@) {
        Some(t) => t,
        None => s,
    }
}

/// `id` starts with one of the prefixes that playlist identifiers have.
pub open spec fn has_playlist_prefix(id: Seq<char>) -> bool {
    ||| starts_with(id, "PL"@)
    ||| starts_with(id, "RD"@)
    ||| starts_with(id, "UL"@)
    ||| starts_with(id, "UU"@)
    ||| starts_with(id, "PU"@)
    ||| starts_with(id, "OL"@)
    ||| starts_with(id, "LL"@)
    ||| starts_with(id, "FL"@)
    ||| starts_with(id, "WL"@)
}

/// What parsing a playlist [`Id`] from `s` gives.
pub open spec fn spec_playlist_id(s: Seq<char>) -> Result<Seq<char>, IdErrorView> {
    let id = strip_playlist_url(s);
    if all_id_chars(id) && has_playlist_prefix(id) {
        Ok(id)
    } else {
        Err(IdErrorView::InvalidId(s))
    }
}

/// An Id describing a Playlist.
#[derive(Debug, Clone)]
pub struct Id(String);

impl View for Id {
    type V = Seq<char>;

    closed spec fn view(&self) -> Seq<char> {
        self.0@
    }
}

/// Whether `id` starts with one of the prefixes of playlist identifiers.
fn has_playlist_prefix_exec(id: &[char]) -> (b: bool)
    ensures
        b == has_playlist_prefix(id@),
{
    let prefixes = ["PL", "RD", "UL", "UU", "PU", "OL", "LL", "FL", "WL"];
    let p0 = chars_of(prefixes[0]);
    let p1 = chars_of(prefixes[1]);
    let p2 = chars_of(prefixes[2]);
    let p3 = chars_of(prefixes[3]);
    let p4 = chars_of(prefixes[4]);
    let p5 = chars_of(prefixes[5]);
    let p6 = chars_of(prefixes[6]);
    let p7 = chars_of(prefixes[7]);
    let p8 = chars_of(prefixes[8]);
    starts_with_exec(id, p0.as_slice()) || starts_with_exec(id, p1.as_slice()) || starts_with_exec(
        id,
        p2.as_slice(),
    ) || starts_with_exec(id, p3.as_slice()) || starts_with_exec(id, p4.as_slice())
        || starts_with_exec(id, p5.as_slice()) || starts_with_exec(id, p6.as_slice())
        || starts_with_exec(id, p7.as_slice()) || starts_with_exec(id, p8.as_slice())
}

impl Id {
    /// The identifier is made of valid characters and starts with a playlist
    /// prefix.
    pub closed spec fn wf(self) -> bool {
        all_id_chars(self.0@) && has_playlist_prefix(self.0@)
    }

    /// An identifier made from its text, as YouTube reports it.
    pub fn from_text(text: String) -> (id: Id)
        ensures
            id@ == text@,
    {
        Id(text)
    }

    /// Parses a playlist [`Id`] from a bare identifier or a playlist URL.
    pub fn from_str(s: &str) -> (r: Result<Id, IdError<0>>)
        ensures
            r matches Ok(id) ==> id.wf() && spec_playlist_id(s@) == Ok::<Seq<char>, IdErrorView>(
                id@,
            ),
            r matches Err(e) ==> spec_playlist_id(s@) == Err::<Seq<char>, IdErrorView>(e@),
    {
        let id = match strip_prefix_exec(s, "https://www.youtube.com/playlist?list=") {
            Some(t) => t,
            None => s,
        };
        let chars = chars_of(id);
        if crate::id::validate_chars(chars.as_slice()) && has_playlist_prefix_exec(
            chars.as_slice(),
        ) {
            Ok(Id(id.to_owned()))
        } else {
            Err(IdError::InvalidId(s.to_owned()))
        }
    }

    /// The characters of the identifier.
    pub fn as_string(&self) -> (s: String)
        ensures
            s@ == self@,
    {
        self.0.clone()
    }
}

/// A playlist may be named by its bare identifier or by its URL: for every
/// text `x` made of identifier characters, parsing the playlist URL that ends
/// in `x` succeeds exactly when parsing `x` does, with the same identifier.
pub proof fn law_playlist_url_prefix(x: Seq<char>)
    requires
        all_id_chars(x),
    ensures
        spec_playlist_id("https://www.youtube.com/playlist?list="@ + x) is Ok <==> spec_playlist_id(
            x,
        ) is Ok,
        spec_playlist_id(x) is Ok ==> spec_playlist_id("https://www.youtube.com/playlist?list="@
            + x) == spec_playlist_id(x),
{
    let p = "https://www.youtube.com/playlist?list="@;
    reveal_strlit("https://www.youtube.com/playlist?list=");
    assert((p + x).subrange(0, p.len() as int) =~= p);
    assert((p + x).subrange(p.len() as int, (p + x).len() as int) =~= x);
    lemma_not_starts_with(x, p, 5);
}

/// Parsing the characters of a well-formed playlist [`Id`] gives that [`Id`]
/// back.
pub proof fn law_playlist_id_round_trip(id: Id)
    requires
        id.wf(),
    ensures
        spec_playlist_id(id@) == Ok::<Seq<char>, IdErrorView>(id@),
{
    reveal_strlit("https://www.youtube.com/playlist?list=");
    lemma_not_starts_with(id@, "https://www.youtube.com/playlist?list="@, 5);
}

impl PartialEq for Id {
    fn eq(&self, other: &Self) -> (b: bool) {
        self.0 == other.0
    }
}

impl vstd::std_specs::cmp::PartialEqSpecImpl for Id {
    open spec fn obeys_eq_spec() -> bool {
        true
    }

    open spec fn eq_spec(&self, other: &Id) -> bool {
        self@ == other@
    }
}

impl Eq for Id {
}

impl std::str::FromStr for Id {
    type Err = IdError<0>;

    fn from_str(s: &str) -> (r: Result<Self, Self::Err>)
        ensures
            r matches Ok(id) ==> id.wf() && spec_playlist_id(s@) == Ok::<Seq<char>, IdErrorView>(id@),
            r matches Err(e) ==> spec_playlist_id(s@) == Err::<Seq<char>, IdErrorView>(e@),
    {
        Id::from_str(s)
    }
}


/// The characters that follow the first 37 bytes of a canonical playlist URL
/// (`http://www.youtube.com/playlist?list=` is 37 bytes long).
pub open spec fn canonical_tail(url: Seq<char>) -> Seq<char> {
    decode_utf8(encode_utf8(url).subrange(37, encode_utf8(url).len() as int))
}

/// The identifier can be read from a canonical URL: it is longer than 37
/// bytes, a character starts at byte 37, and what follows is an identifier.
pub open spec fn canonical_readable(url: Seq<char>) -> bool {
    &&& 37 <= encode_utf8(url).len()
    &&& is_char_boundary(encode_utf8(url), 37)
    &&& spec_playlist_id(canonical_tail(url)) is Ok
}

/// Encoding a concatenation of characters concatenates their encodings.
proof fn lemma_encode_concat(a: Seq<char>, b: Seq<char>)
    ensures
        encode_utf8(a + b) == encode_utf8(a) + encode_utf8(b),
    decreases a.len(),
{
    if a.len() == 0 {
        assert(a + b =~= b);
        assert(encode_utf8(a) =~= Seq::<u8>::empty());
        assert(encode_utf8(a) + encode_utf8(b) =~= encode_utf8(b));
    } else {
        lemma_encode_concat(a.drop_first(), b);
        assert((a + b).drop_first() =~= a.drop_first() + b);
        assert((a + b)[0] == a[0]);
        assert(encode_utf8(a + b) =~= encode_utf8(a) + encode_utf8(b));
    }
}

/// In the encoding of `p + x`, where `p` is ASCII, a character starts right
/// after the bytes of `p`, of which there is one per character.
proof fn lemma_ascii_prefix_boundary(p: Seq<char>, x: Seq<char>)
    requires
        is_ascii_chars(p),
    ensures
        encode_utf8(p).len() == p.len(),
        is_char_boundary(encode_utf8(p + x), p.len() as int),
    decreases p.len(),
{
    vstd::utf8::is_ascii_chars_encode_utf8(p);
    encode_utf8_valid_utf8(p + x);
    if p.len() > 0 {
        let bytes = encode_utf8(p + x);
        let c = p[0] as u32;
        assert((p + x)[0] == p[0]);
        assert((p + x).drop_first() =~= p.drop_first() + x);
        assert('\0' <= p[0] <= '\u{7f}');
        assert(has_width_1_encoding(c));
        assert(leading_byte_width_1(c) <= 0x7f) by (bit_vector)
            requires
                c <= 0x7f,
        ;
        let rest = encode_utf8(p.drop_first() + x);
        assert(bytes =~= seq![leading_byte_width_1(c)] + rest);
        assert(length_of_first_scalar(bytes) == 1);
        assert(pop_first_scalar(bytes) =~= rest);
        assert(is_ascii_chars(p.drop_first())) by {
            assert forall|i| 0 <= i < p.drop_first().len() implies '\0' <= #[trigger] p.drop_first()[i]
                <= '\u{7f}' by {
                assert(p.drop_first()[i] == p[i + 1]);
            }
        }
        lemma_ascii_prefix_boundary(p.drop_first(), x);
    }
}

/// A canonical playlist URL is `http://www.youtube.com/playlist?list=`
/// followed by the identifier: what follows that text is read as the
/// identifier, and it can be read exactly where it is one.
pub proof fn law_canonical_url(x: Seq<char>)
    ensures
        canonical_tail("http://www.youtube.com/playlist?list="@ + x) == x,
        canonical_readable("http://www.youtube.com/playlist?list="@ + x) <==> spec_playlist_id(x) is Ok,
{
    let p = "http://www.youtube.com/playlist?list="@;
    reveal_strlit("http://www.youtube.com/playlist?list=");
    assert(p.len() == 37);
    assert(is_ascii_chars(p));
    lemma_ascii_prefix_boundary(p, x);
    lemma_encode_concat(p, x);
    let b = encode_utf8(p + x);
    assert(b.subrange(37, b.len() as int) =~= encode_utf8(x));
    encode_utf8_decode_utf8(x);
}

/// The reply of the browse endpoint for a playlist can be read: where it is an
/// alert, the alert is an error with a text.
pub open spec fn playlist_reply_readable(reply: BrowseResult<Page>) -> bool {
    reply matches BrowseResult::Error { alerts } ==> alert_readable(alerts.0.alert_renderer)
}

/// A playlist, as its page describes it.
pub struct Playlist {
    response: Page,
}

impl Playlist {
    /// The page of the playlist.
    pub closed spec fn page(self) -> Page {
        self.response
    }

    /// The metadata of the playlist.
    pub open spec fn metadata(self) -> MicroformatDataRenderer {
        self.page().microformat.microformat_data_renderer
    }

    /// The statistics of the playlist.
    pub open spec fn statistics(self) -> PlaylistSidebarPrimaryInfoRenderer {
        self.page().sidebar.playlist_sidebar_renderer.items.0.playlist_sidebar_primary_info_renderer
    }

    /// The owner of the playlist, where shown.
    pub open spec fn owner(self) -> Option<PlaylistSidebarSecondaryInfoRenderer> {
        match self.page().sidebar.playlist_sidebar_renderer.items.1 {
            Some(x) => Some(x.playlist_sidebar_secondary_info_renderer),
            None => None,
        }
    }

    /// A playlist made of its page.
    pub fn new(response: Page) -> (p: Playlist)
        ensures
            p.page() == response,
    {
        Playlist { response }
    }

    /// A playlist made of the reply of the browse endpoint: the alert that
    /// YouTube shows instead, if any, as an error.
    pub fn from_reply(reply: BrowseResult<Page>) -> (r: crate::Result<Playlist>)
        requires
            playlist_reply_readable(reply),
        ensures
            match reply {
                BrowseResult::Page(page) => r matches Ok(p) && p.page() == page,
                BrowseResult::Error { alerts } => r matches Err(e) && e@
                    == crate::error::ErrorView::Youtube(
                    spec_alert_error(alert_text(alerts.0.alert_renderer)),
                ),
            },
    {
        match reply.into_std() {
            Ok(response) => Ok(Playlist { response }),
            Err(e) => Err(e),
        }
    }

    fn microformat(&self) -> (m: &MicroformatDataRenderer)
        ensures
            *m == self.metadata(),
    {
        &self.response.microformat.microformat_data_renderer
    }

    fn primary_sidebar(&self) -> (s: &PlaylistSidebarPrimaryInfoRenderer)
        ensures
            *s == self.statistics(),
    {
        &self.response.sidebar.playlist_sidebar_renderer.items.0.playlist_sidebar_primary_info_renderer
    }

    fn secondary_sidebar(&self) -> (s: Option<&PlaylistSidebarSecondaryInfoRenderer>)
        ensures
            match self.owner() {
                Some(o) => s == Some(&o),
                None => s is None,
            },
    {
        match &self.response.sidebar.playlist_sidebar_renderer.items.1 {
            Some(x) => Some(&x.playlist_sidebar_secondary_info_renderer),
            None => None,
        }
    }

    /// The [`Id`] of a playlist, read from its canonical URL.
    pub fn id(&self) -> (id: Id)
        requires
            canonical_readable(self.metadata().url_canonical@),
        ensures
            spec_playlist_id(canonical_tail(self.metadata().url_canonical@)) == Ok::<
                Seq<char>,
                IdErrorView,
            >(id@),
    {
        let url = self.microformat().url_canonical.as_str();
        let (_, tail) = url.split_at(37);
        proof {
            vstd::utf8::encode_utf8_decode_utf8(tail@);
        }
        Id::from_str(tail).unwrap()
    }

    /// The title of a playlist.
    pub fn title(&self) -> (t: &str)
        ensures
            t@ == self.metadata().title@,
    {
        self.microformat().title.as_str()
    }

    /// The description of a playlist.
    pub fn description(&self) -> (d: &str)
        ensures
            d@ == self.metadata().description@,
    {
        self.microformat().description.as_str()
    }

    /// The owner is named wherever it is shown.
    pub open spec fn owner_named(self) -> bool {
        self.owner() matches Some(o) ==> o.video_owner.video_owner_renderer.title.runs@.len() > 0
    }

    /// The [`Channel`] that made this playlist, where shown.
    pub fn channel(&self) -> (c: Option<Channel<'_>>)
        requires
            self.owner_named(),
        ensures
            match self.owner() {
                Some(o) => c matches Some(c) && c.known_id()
                    == o.video_owner.video_owner_renderer.title.runs@[0].navigation_endpoint.browse_endpoint.browse_id
                    && c.shown_name() == o.video_owner.video_owner_renderer.title.runs@[0].text@,
                None => c is None,
            },
    {
        let sec = match self.secondary_sidebar() {
            Some(s) => &s.video_owner.video_owner_renderer,
            None => {
                return None;
            },
        };
        Some(Channel { id: sec.id(), name: sec.name() })
    }

    /// Is this playlist unlisted?
    pub fn unlisted(&self) -> (b: bool)
        ensures
            b == self.metadata().unlisted,
    {
        self.microformat().unlisted
    }

    /// The [`Thumbnails`](crate::Thumbnail) of a playlist.
    pub fn thumbnails(&self) -> (t: &Vec<crate::Thumbnail>)
        ensures
            *t == self.metadata().thumbnail.thumbnails,
    {
        &self.microformat().thumbnail.thumbnails
    }

    /// The amount of views of a playlist.
    pub fn views(&self) -> (n: u64)
        requires
            self.statistics().stats.1.readable(),
        ensures
            n == self.statistics().stats.1.spec_number(),
    {
        self.primary_sidebar().stats.1.as_number()
    }

    /// The amount of videos in a playlist.
    pub fn length(&self) -> (n: u64)
        requires
            self.statistics().stats.0.readable(),
        ensures
            n == self.statistics().stats.0.spec_number(),
    {
        self.primary_sidebar().stats.0.as_number()
    }

    /// The items of the playlist's first part, in order; [`VideoFeed`]
    /// walks them.
    pub fn video_items(&self) -> (v: &Vec<PlaylistItem>)
        ensures
            v@ == self.page().contents.items(),
    {
        &self.response.contents.two_column_browse_results_renderer.tabs.0.tab_renderer.content.section_list_renderer.contents.0.item_section_renderer.contents.0.playlist_video_list_renderer.contents
    }
}

/// The creator of a [`Playlist`].
pub struct Channel<'a> {
    id: crate::channel::Id,
    name: &'a str,
}

impl<'a> Channel<'a> {
    /// The identifier of the channel.
    pub closed spec fn known_id(self) -> crate::channel::Id {
        self.id
    }

    /// The name of the channel.
    pub closed spec fn shown_name(self) -> Seq<char> {
        self.name@
    }

    /// The channel with identifier `id` and name `name`.
    pub fn new(id: crate::channel::Id, name: &'a str) -> (c: Channel<'a>)
        ensures
            c.known_id() == id,
            c.shown_name() == name@,
    {
        Channel { id, name }
    }

    /// The [`Id`](crate::channel::Id) of a [`Channel`].
    pub fn id(&self) -> (id: crate::channel::Id)
        ensures
            id == self.known_id(),
    {
        self.id
    }

    /// The name of a [`Channel`].
    pub fn name(&self) -> (n: &str)
        ensures
            n@ == self.shown_name(),
    {
        self.name
    }
}

/// What a step of a [`VideoFeed`] gives.
pub enum VideoStep {
    /// The next video of the playlist, or why it cannot be watched.
    Item(Result<video::Video, video::Error>),
    /// The items have run out at a token: fetch the rest of the playlist it
    /// names and hand its items to [`VideoFeed::refill`].
    Fetch(String),
    /// There are no more videos.
    Done,
}

/// The walk over the videos of a playlist: it hands them out in order and
/// stops at a token for the rest, which the caller fetches.
pub struct VideoFeed {
    items: Vec<PlaylistItem>,
}

impl View for VideoFeed {
    type V = Seq<PlaylistItem>;

    /// The items that are left, in order.
    closed spec fn view(&self) -> Seq<PlaylistItem> {
        self.items@
    }
}

/// The next step of a walk over `items` can read what it hands out: where
/// the first item is a placeholder, its title names a known reason.
pub open spec fn front_readable(items: Seq<PlaylistItem>) -> bool {
    items.len() > 0 ==> (items[0] matches PlaylistItem::PlaylistVideoRenderer(r)
        ==> video::renderer_readable(r))
}

impl VideoFeed {
    /// A walk over `items`.
    pub fn new(items: Vec<PlaylistItem>) -> (f: VideoFeed)
        ensures
            f@ == items@,
    {
        VideoFeed { items }
    }

    /// Continues the walk with the items fetched for a token.
    pub fn refill(&mut self, items: Vec<PlaylistItem>)
        ensures
            final(self)@ == old(self)@ + items@,
    {
        let mut items = items;
        self.items.append(&mut items);
    }

    /// Whether the next step can read what it hands out.
    pub fn can_step(&self) -> (b: bool)
        ensures
            b == front_readable(self@),
    {
        if self.items.len() == 0 {
            return true;
        }
        match &self.items[0] {
            PlaylistItem::PlaylistVideoRenderer(r) => video::renderer_is_readable(r),
            PlaylistItem::ContinuationItemRenderer(_) => true,
        }
    }

    /// The next step of the walk. At a token, the items left after it are
    /// dropped: the part that the token names replaces them.
    pub fn step(&mut self) -> (s: VideoStep)
        requires
            front_readable(old(self)@),
        ensures
            old(self)@.len() == 0 ==> s is Done && final(self)@.len() == 0,
            old(self)@.len() > 0 ==> match old(self)@[0] {
                PlaylistItem::ContinuationItemRenderer(c) => s matches VideoStep::Fetch(t) && t@
                    == c.continuation_endpoint.continuation_command.token@ && final(self)@.len()
                    == 0,
                PlaylistItem::PlaylistVideoRenderer(r) => s matches VideoStep::Item(v)
                    && video::made_from(r, v) && final(self)@ == old(self)@.drop_first(),
            },
    {
        if self.items.len() == 0 {
            return VideoStep::Done;
        }
        let ghost before = self.items@;
        let item = self.items.remove(0);
        proof {
            assert(before.remove(0) =~= before.drop_first());
            assert(before[0] == item);
        }
        match item {
            PlaylistItem::PlaylistVideoRenderer(r) => VideoStep::Item(video::Video::new(r)),
            PlaylistItem::ContinuationItemRenderer(c) => {
                self.items.clear();
                VideoStep::Fetch(c.get())
            },
        }
    }
}

} // verus!
