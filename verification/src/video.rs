//! Videos.
//!
//! Videos are identified by a unique [`Id`]; a [`Video`] is made from the two
//! documents that YouTube serves for it: the player response and the watch
//! page data.

pub mod related;

use vstd::prelude::*;
use crate::error::{Id as IdError, IdErrorView};
use crate::id::{all_id_chars, spec_parse_id};
use crate::text::{chars_of, lemma_not_starts_with, split_once, strip_prefix, strip_prefix_exec};
use crate::youtube::next::{
    Content, RelatedItem, Results2, Root, VideoPrimaryInfoRenderer, VideoSecondaryInfoRenderer,
    spec_tooltip_ratings,
};
use crate::youtube::player_response::{
    spec_as_error, PlayerResponse, Result as PlayerResult, VideoDetails,
};
use crate::youtube::{
    naive_date_from_str, parse_date, spec_parse_subscribers, spec_strip_date_prefix, Date,
};

verus! {

/// The part of `s` that names a video: `s` without the first of the watch,
/// short and embed URL prefixes that it starts with.
pub open spec fn strip_video_url(s: Seq<char>) -> Seq<char> {
    match strip_prefix(s, "https://www.youtube.com/watch?v="@) {
        Some(t) => t,
        None => match strip_prefix(s, "https://youtu.be/"@) {
            Some(t) => t,
            None => match strip_prefix(s, "https://www.youtube.com/embed/"@) {
                Some(t) => t,
                None => s,
            },
        },
    }
}

/// What parsing a video [`Id`] from `s` gives.
pub open spec fn spec_video_id(s: Seq<char>) -> Result<Seq<char>, IdErrorView> {
    spec_parse_id(strip_video_url(s), 11)
}

/// An Id describing a [`Video`].
#[derive(Debug, Clone, Copy)]
pub struct Id(crate::id::Id<11>);

impl View for Id {
    type V = Seq<char>;

    closed spec fn view(&self) -> Seq<char> {
        self.0.text()
    }
}

impl Id {
    /// The identifier is made of 11 valid characters.
    pub closed spec fn wf(self) -> bool {
        self.0.wf()
    }

    /// Parses a video [`Id`] from a bare identifier or a watch, short or embed
    /// URL.
    pub fn from_str(s: &str) -> (r: Result<Id, IdError<11>>)
        ensures
            r matches Ok(id) ==> id.wf() && spec_video_id(s@) == Ok::<Seq<char>, IdErrorView>(
                id@,
            ),
            r matches Err(e) ==> spec_video_id(s@) == Err::<Seq<char>, IdErrorView>(e@),
    {
        let value = match strip_prefix_exec(s, "https://www.youtube.com/watch?v=") {
            Some(t) => t,
            None => match strip_prefix_exec(s, "https://youtu.be/") {
                Some(t) => t,
                None => match strip_prefix_exec(s, "https://www.youtube.com/embed/") {
                    Some(t) => t,
                    None => s,
                },
            },
        };
        let chars = chars_of(value);
        match crate::id::Id::<11>::from_chars(chars.as_slice()) {
            Ok(inner) => Ok(Id(inner)),
            Err(e) => Err(e),
        }
    }

    /// The characters of the identifier.
    pub fn as_string(&self) -> (s: String)
        ensures
            s@ == self@,
    {
        self.0.as_string()
    }
}

/// A video may be named by its bare identifier or by a watch, short or embed
/// URL: for every text `x` made of identifier characters, parsing any of these
/// URLs that ends in `x` gives what parsing `x` gives.
pub proof fn law_video_url_prefix(x: Seq<char>)
    requires
        all_id_chars(x),
    ensures
        spec_video_id("https://www.youtube.com/watch?v="@ + x) == spec_video_id(x),
        spec_video_id("https://youtu.be/"@ + x) == spec_video_id(x),
        spec_video_id("https://www.youtube.com/embed/"@ + x) == spec_video_id(x),
{
    let p1 = "https://www.youtube.com/watch?v="@;
    let p2 = "https://youtu.be/"@;
    let p3 = "https://www.youtube.com/embed/"@;
    reveal_strlit("https://www.youtube.com/watch?v=");
    reveal_strlit("https://youtu.be/");
    reveal_strlit("https://www.youtube.com/embed/");
    lemma_not_prefixed(x);
    assert((p1 + x).subrange(0, p1.len() as int) =~= p1);
    assert((p1 + x).subrange(p1.len() as int, (p1 + x).len() as int) =~= x);
    assert((p2 + x).subrange(0, p2.len() as int) =~= p2);
    assert((p2 + x).subrange(p2.len() as int, (p2 + x).len() as int) =~= x);
    assert((p3 + x).subrange(0, p3.len() as int) =~= p3);
    assert((p3 + x).subrange(p3.len() as int, (p3 + x).len() as int) =~= x);
    // The short and embed URLs do not start with the watch prefix.
    lemma_not_starts_with(p2 + x, p1, 12);
    lemma_not_starts_with(p3 + x, p1, 24);
    lemma_not_starts_with(p3 + x, p2, 8);
}

/// A text made of identifier characters starts with none of the URL prefixes.
proof fn lemma_not_prefixed(x: Seq<char>)
    requires
        all_id_chars(x),
    ensures
        strip_video_url(x) == x,
{
    reveal_strlit("https://www.youtube.com/watch?v=");
    reveal_strlit("https://youtu.be/");
    reveal_strlit("https://www.youtube.com/embed/");
    lemma_not_starts_with(x, "https://www.youtube.com/watch?v="@, 5);
    lemma_not_starts_with(x, "https://youtu.be/"@, 5);
    lemma_not_starts_with(x, "https://www.youtube.com/embed/"@, 5);
}

/// Parsing the characters of a well-formed video [`Id`] gives that [`Id`]
/// back.
pub proof fn law_video_id_round_trip(id: Id)
    requires
        id.wf(),
    ensures
        spec_video_id(id@) == Ok::<Seq<char>, IdErrorView>(id@),
{
    id.0.lemma_valid();
    lemma_not_prefixed(id@);
}

impl PartialEq for Id {
    fn eq(&self, other: &Self) -> (b: bool) {
        self.0.same(&other.0)
    }
}

impl vstd::std_specs::cmp::PartialEqSpecImpl for Id {
    open spec fn obeys_eq_spec() -> bool {
        true
    }

    open spec fn eq_spec(&self, other: &Id) -> bool {
        self@ == other@
    }
}

impl Eq for Id {
}

impl std::str::FromStr for Id {
    type Err = IdError<11>;

    fn from_str(s: &str) -> (r: Result<Self, Self::Err>)
        ensures
            r matches Ok(id) ==> id.wf() && spec_video_id(s@) == Ok::<Seq<char>, IdErrorView>(id@),
            r matches Err(e) ==> spec_video_id(s@) == Err::<Seq<char>, IdErrorView>(e@),
    {
        Id::from_str(s)
    }
}


/// A video, as the player response and the watch page data describe it.
pub struct Video {
    player_response: PlayerResponse,
    initial_data: Root,
}

impl Video {
    /// The player response of the video.
    pub closed spec fn response(self) -> PlayerResponse {
        self.player_response
    }

    /// The watch page data of the video.
    pub closed spec fn page(self) -> Root {
        self.initial_data
    }

    /// The details that the player response gives.
    pub open spec fn details(self) -> VideoDetails {
        self.response().video_details
    }

    /// The parts of the main column of the watch page.
    pub open spec fn main_column(self) -> Results2 {
        self.page().contents.two_column_watch_next_results.results.results
    }

    /// The main column starts with the primary information.
    pub open spec fn has_primary(self) -> bool {
        self.main_column().contents@.len() > 0
            && self.main_column().contents@[0] is VideoPrimaryInfoRenderer
    }

    /// The main column holds the secondary information second.
    pub open spec fn has_secondary(self) -> bool {
        self.main_column().contents@.len() > 1
            && self.main_column().contents@[1] is VideoSecondaryInfoRenderer
    }

    /// The primary information of the video.
    pub open spec fn primary_info(self) -> VideoPrimaryInfoRenderer
        recommends
            self.has_primary(),
    {
        match self.main_column().contents@[0] {
            Content::VideoPrimaryInfoRenderer(p) => p,
            _ => vstd::pervasive::arbitrary(),
        }
    }

    /// The secondary information of the video.
    pub open spec fn secondary_info(self) -> VideoSecondaryInfoRenderer
        recommends
            self.has_secondary(),
    {
        match self.main_column().contents@[1] {
            Content::VideoSecondaryInfoRenderer(p) => p,
            _ => vstd::pervasive::arbitrary(),
        }
    }

    /// A video made of its player response and its watch page data.
    pub fn new(player_response: PlayerResponse, initial_data: Root) -> (v: Video)
        ensures
            v.response() == player_response,
            v.page() == initial_data,
    {
        Video { player_response, initial_data }
    }

    /// A video made of the replies of the player and next endpoints: the
    /// error that the player endpoint reports, if any.
    pub fn from_replies(player: PlayerResult<PlayerResponse>, initial_data: Root) -> (r:
        crate::Result<Video>)
        ensures
            match player {
                PlayerResult::Playable(p) => r matches Ok(v) && v.response() == p && v.page()
                    == initial_data,
                PlayerResult::Error { playability_status } => r matches Err(e) && e@
                    == crate::error::ErrorView::Youtube(
                    spec_as_error(playability_status.reason@),
                ),
            },
    {
        match player.into_std() {
            Ok(player_response) => Ok(Video { player_response, initial_data }),
            Err(e) => Err(e),
        }
    }

    /// The title of a [`Video`].
    pub fn title(&self) -> (t: &str)
        ensures
            t@ == self.details().title@,
    {
        self.player_response.video_details.title.as_str()
    }

    /// The [`Id`] of a [`Video`].
    pub fn id(&self) -> (id: Id)
        ensures
            id == self.details().video_id,
    {
        self.player_response.video_details.video_id
    }

    /// The length of a [`Video`], in seconds.
    pub fn duration(&self) -> (secs: u64)
        ensures
            secs == self.details().length_seconds,
    {
        self.player_response.video_details.length_seconds
    }

    /// The keywords (tags) of a [`Video`].
    pub fn keywords(&self) -> (k: &Vec<String>)
        ensures
            *k == self.details().keywords,
    {
        &self.player_response.video_details.keywords
    }

    /// The uploader's subscriber count can be read wherever it is shown.
    pub open spec fn channel_readable(self) -> bool {
        self.has_secondary() && self.secondary_info().owner.video_owner_renderer.subscribers_readable()
    }

    /// The [`Channel`] of a [`Video`].
    pub fn channel(&self) -> (c: Channel<'_>)
        requires
            self.channel_readable(),
        ensures
            c.known_id() == self.details().channel_id,
            c.shown_name() == self.details().author@,
            c.subscriber_count() == (match self.secondary_info().owner.video_owner_renderer.subscriber_count_text {
                Some(t) => spec_parse_subscribers(split_once(t.simple_text@, " "@).unwrap().0),
                None => None,
            }),
            c.shown_thumbnails() == self.secondary_info().owner.video_owner_renderer.thumbnail.thumbnails@,
    {
        let owner = &self.initial_data.contents.two_column_watch_next_results.results.results.secondary().owner.video_owner_renderer;
        Channel {
            id: self.player_response.video_details.channel_id,
            name: self.player_response.video_details.author.as_str(),
            subscribers: owner.subscribers(),
            thumbnails: owner.thumbnails(),
        }
    }

    /// The description of a [`Video`].
    pub fn description(&self) -> (d: &str)
        ensures
            d@ == self.details().short_description@,
    {
        self.player_response.video_details.short_description.as_str()
    }

    /// The amount of views a [`Video`] received.
    pub fn views(&self) -> (n: u64)
        ensures
            n == self.details().view_count,
    {
        self.player_response.video_details.view_count
    }

    /// The ratings can be read wherever they are shown.
    pub open spec fn ratings_readable(self) -> bool {
        self.has_primary() && self.primary_info().ratings_readable()
    }

    /// The [`Ratings`] a [`Video`] received.
    pub fn ratings(&self) -> (r: Ratings)
        requires
            self.ratings_readable(),
        ensures
            r == (match self.primary_info().sentiment_bar {
                Some(bar) => Ratings::Allowed {
                    likes: spec_tooltip_ratings(bar.sentiment_bar_renderer.tooltip@).0,
                    dislikes: spec_tooltip_ratings(bar.sentiment_bar_renderer.tooltip@).1,
                },
                None => Ratings::NotAllowed,
            }),
    {
        match self.initial_data.contents.two_column_watch_next_results.results.results.primary().ratings() {
            Some((likes, dislikes)) => Ratings::Allowed { likes, dislikes },
            None => Ratings::NotAllowed,
        }
    }

    /// The hashtags a [`Video`] is tagged with, in order.
    pub fn hashtags(&self) -> (h: Vec<&str>)
        requires
            self.has_primary(),
        ensures
            h@.len() == self.primary_info().super_title_link.runs@.len(),
            forall|i: int|
                0 <= i < h@.len() ==> (#[trigger] h@[i])@
                    == self.primary_info().super_title_link.runs@[i].text@,
    {
        self.initial_data.contents.two_column_watch_next_results.results.results.primary().hashtags()
    }

    /// If a [`Video`] is live (e.g. a livestream) or was live in the past.
    pub fn live(&self) -> (b: bool)
        ensures
            b == self.details().is_live_content,
    {
        self.player_response.video_details.is_live_content
    }

    /// The [`Thumbnails`](crate::Thumbnail) of a [`Video`].
    pub fn thumbnails(&self) -> (t: &Vec<crate::Thumbnail>)
        ensures
            *t == self.details().thumbnail.thumbnails,
    {
        &self.player_response.video_details.thumbnail.thumbnails
    }

    /// The date, as year, month and day, that the upload text of the video
    /// reads as, if it reads as one.
    pub open spec fn upload_date(self) -> Option<(i32, u32, u32)>
        recommends
            self.has_primary(),
    {
        naive_date_from_str(
            spec_strip_date_prefix(self.primary_info().date_text.simple_text@),
            "%b %e, %Y"@,
        )
    }

    /// The date a [`Video`] was published.
    pub fn date(&self) -> (d: Date)
        requires
            self.has_primary(),
            self.upload_date() is Some,
        ensures
            self.upload_date() == Some((d.year, d.month, d.day)),
    {
        let primary = self.initial_data.contents.two_column_watch_next_results.results.results.primary();
        parse_date(primary.date_text.simple_text.as_str()).unwrap()
    }

    /// The date a [`Video`] was published, where its upload text reads as a
    /// date.
    pub fn checked_date(&self) -> (d: Option<Date>)
        requires
            self.has_primary(),
        ensures
            match d {
                Some(d) => self.upload_date() == Some((d.year, d.month, d.day)),
                None => self.upload_date() is None,
            },
    {
        let primary = self.initial_data.contents.two_column_watch_next_results.results.results.primary();
        match parse_date(primary.date_text.simple_text.as_str()) {
            Some(_) => Some(self.date()),
            None => None,
        }
    }

    /// The items YouTube shows as related to the video, where it shows any;
    /// [`RelatedFeed`] walks them.
    pub fn related_items(&self) -> (r: Option<&Vec<RelatedItem>>)
        ensures
            match self.page().contents.two_column_watch_next_results.secondary_results {
                Some(s) => r == Some(&s.secondary_results.results),
                None => r is None,
            },
    {
        match &self.initial_data.contents.two_column_watch_next_results.secondary_results {
            Some(s) => Some(&s.secondary_results.results),
            None => None,
        }
    }
}

impl PartialEq for Video {
    fn eq(&self, other: &Self) -> (b: bool) {
        self.id() == other.id()
    }
}

impl vstd::std_specs::cmp::PartialEqSpecImpl for Video {
    open spec fn obeys_eq_spec() -> bool {
        true
    }

    open spec fn eq_spec(&self, other: &Video) -> bool {
        self.details().video_id@ == other.details().video_id@
    }
}

impl Eq for Video {
}

/// The uploader of a video.
pub struct Channel<'a> {
    id: crate::channel::Id,
    name: &'a str,
    subscribers: Option<u64>,
    thumbnails: &'a Vec<crate::Thumbnail>,
}

impl<'a> Channel<'a> {
    /// The identifier of the channel.
    pub closed spec fn known_id(self) -> crate::channel::Id {
        self.id
    }

    /// The name of the channel.
    pub closed spec fn shown_name(self) -> Seq<char> {
        self.name@
    }

    /// The number of subscribers of the channel, where shown.
    pub closed spec fn subscriber_count(self) -> Option<u64> {
        self.subscribers
    }

    /// The thumbnails of the channel.
    pub closed spec fn shown_thumbnails(self) -> Seq<crate::Thumbnail> {
        self.thumbnails@
    }

    /// The [`Id`](crate::channel::Id) of a [`Channel`].
    pub fn id(&self) -> (id: crate::channel::Id)
        ensures
            id == self.known_id(),
    {
        self.id
    }

    /// The name of a [`Channel`].
    pub fn name(&self) -> (n: &str)
        ensures
            n@ == self.shown_name(),
    {
        self.name
    }

    /// The amount of subscribers a [`Channel`] has, where shown.
    pub fn subscribers(&self) -> (n: Option<u64>)
        ensures
            n == self.subscriber_count(),
    {
        self.subscribers
    }

    /// The [`Thumbnails`](crate::Thumbnail) of a [`Channel`].
    pub fn thumbnails(&self) -> (t: &Vec<crate::Thumbnail>)
        ensures
            t@ == self.shown_thumbnails(),
    {
        self.thumbnails
    }
}

impl<'a> PartialEq for Channel<'a> {
    fn eq(&self, other: &Self) -> (b: bool) {
        self.id == other.id
    }
}

impl<'a> vstd::std_specs::cmp::PartialEqSpecImpl for Channel<'a> {
    open spec fn obeys_eq_spec() -> bool {
        true
    }

    open spec fn eq_spec(&self, other: &Channel<'a>) -> bool {
        self.known_id()@ == other.known_id()@
    }
}

impl<'a> Eq for Channel<'a> {
}

/// Ratings on a video.
#[derive(Debug, PartialEq, Eq, Structural, Clone, Copy)]
pub enum Ratings {
    /// Rating is allowed.
    Allowed {
        /// The amount of likes a [`Video`] received.
        likes: u64,
        /// The amount of dislikes a [`Video`] received.
        dislikes: u64,
    },
    /// Rating is not allowed.
    NotAllowed,
}

/// An item that is related to a [`Video`].
#[derive(Clone)]
pub enum Related {
    /// A video.
    Video(related::Video),
    /// A playlist.
    Playlist(related::Playlist),
    /// A movie.
    Movie(related::Movie),
    /// A radio.
    Radio(related::Radio),
}

impl PartialEq for Related {
    fn eq(&self, other: &Self) -> (b: bool) {
        match (self, other) {
            (Related::Video(a), Related::Video(b)) => a == b,
            (Related::Playlist(a), Related::Playlist(b)) => a == b,
            (Related::Movie(a), Related::Movie(b)) => a == b,
            (Related::Radio(a), Related::Radio(b)) => a == b,
            _ => false,
        }
    }
}

impl vstd::std_specs::cmp::PartialEqSpecImpl for Related {
    open spec fn obeys_eq_spec() -> bool {
        true
    }

    open spec fn eq_spec(&self, other: &Related) -> bool {
        match (*self, *other) {
            (Related::Video(a), Related::Video(b)) => a.renderer().video_id@
                == b.renderer().video_id@,
            (Related::Playlist(a), Related::Playlist(b)) => a.renderer().playlist_id@
                == b.renderer().playlist_id@,
            (Related::Movie(a), Related::Movie(b)) => a.renderer().video_id@
                == b.renderer().video_id@,
            (Related::Radio(a), Related::Radio(b)) => a.renderer().playlist_id@
                == b.renderer().playlist_id@,
            _ => false,
        }
    }
}

impl Eq for Related {
}

/// `items` without the promotions at their front.
pub open spec fn skip_promotions(items: Seq<RelatedItem>) -> Seq<RelatedItem>
    decreases items.len(),
{
    if items.len() > 0 && items[0] is PromotedSparklesWebRenderer {
        skip_promotions(items.drop_first())
    } else {
        items
    }
}

/// Skipping the promotions at the front leaves a suffix of the items, and
/// only promotions are skipped.
pub proof fn lemma_skip_promotions(items: Seq<RelatedItem>)
    ensures
        skip_promotions(items).len() <= items.len(),
        skip_promotions(items) == items.subrange(
            items.len() - skip_promotions(items).len(),
            items.len() as int,
        ),
        forall|i: int|
            0 <= i < items.len() - skip_promotions(items).len() ==> (
            #[trigger] items[i] is PromotedSparklesWebRenderer),
        skip_promotions(items).len() > 0 ==> !(skip_promotions(
            items,
        )[0] is PromotedSparklesWebRenderer),
    decreases items.len(),
{
    if items.len() > 0 && items[0] is PromotedSparklesWebRenderer {
        lemma_skip_promotions(items.drop_first());
        let k = items.len() - skip_promotions(items).len();
        assert(items.drop_first().subrange(k - 1, items.len() - 1) =~= items.subrange(
            k,
            items.len() as int,
        ));
        assert forall|i: int|
            0 <= i < items.len() - skip_promotions(items).len() implies (
            #[trigger] items[i] is PromotedSparklesWebRenderer) by {
            if i > 0 {
                assert(items[i] == items.drop_first()[i - 1]);
            }
        }
    } else {
        assert(items.subrange(0, items.len() as int) =~= items);
    }
}

/// The items that stepping through `items` hands out, in order: the first
/// item after the promotions, then what stepping through the rest hands out.
pub open spec fn walk(items: Seq<RelatedItem>) -> Seq<RelatedItem>
    decreases items.len(),
{
    let rest = skip_promotions(items);
    if rest.len() == 0 {
        Seq::<RelatedItem>::empty()
    } else {
        proof {
            lemma_skip_promotions(items);
        }
        seq![rest[0]] + walk(rest.drop_first())
    }
}

/// The item is not a promotion.
pub open spec fn not_promotion(item: RelatedItem) -> bool {
    !(item is PromotedSparklesWebRenderer)
}

/// Stepping through related items hands out every item but the promotions,
/// in order (tokens for more items among them, as requests to fetch).
pub proof fn law_related_walk(items: Seq<RelatedItem>)
    ensures
        walk(items) == items.filter(|i: RelatedItem| not_promotion(i)),
    decreases items.len(),
{
    let pred = |i: RelatedItem| not_promotion(i);
    reveal(Seq::filter);
    if items.len() == 0 {
        assert(items.filter(pred) =~= items);
    } else {
        let rest = items.drop_first();
        assert(items =~= seq![items[0]] + rest);
        Seq::filter_distributes_over_add(seq![items[0]], rest, pred);
        assert(seq![items[0]].drop_last() =~= Seq::<RelatedItem>::empty());
        assert(Seq::<RelatedItem>::empty().filter(pred) =~= Seq::<RelatedItem>::empty());
        law_related_walk(rest);
        if items[0] is PromotedSparklesWebRenderer {
            assert(seq![items[0]].filter(pred) =~= Seq::<RelatedItem>::empty());
            assert(skip_promotions(items) == skip_promotions(rest));
            assert(walk(items) == walk(rest));
            assert(items.filter(pred) =~= rest.filter(pred));
        } else {
            assert(seq![items[0]].filter(pred) =~= seq![items[0]]);
            assert(skip_promotions(items) == items);
            assert(walk(items) == seq![items[0]] + walk(rest));
        }
    }
}

/// What a step of a [`RelatedFeed`] gives.
pub enum RelatedStep {
    /// The next related item.
    Item(Related),
    /// The items have run out at a token: fetch the items it names from the
    /// next endpoint and hand them to [`RelatedFeed::refill`].
    Fetch(String),
    /// There are no more items.
    Done,
}

/// The item that YouTube draws with the renderer `item`, where it is one.
pub open spec fn shown(item: RelatedItem, r: Related) -> bool {
    match (item, r) {
        (RelatedItem::CompactVideoRenderer(v), Related::Video(w)) => w.renderer() == v,
        (RelatedItem::CompactPlaylistRenderer(v), Related::Playlist(w)) => w.renderer() == v,
        (RelatedItem::CompactRadioRenderer(v), Related::Radio(w)) => w.renderer() == v,
        (RelatedItem::CompactMovieRenderer(v), Related::Movie(w)) => w.renderer() == v,
        _ => false,
    }
}

/// The walk over the items related to a video: it hands them out in order,
/// skips promotions, and stops at a token for more items, which the caller
/// fetches.
pub struct RelatedFeed {
    items: Vec<RelatedItem>,
}

impl View for RelatedFeed {
    type V = Seq<RelatedItem>;

    /// The items that are left, in order.
    closed spec fn view(&self) -> Seq<RelatedItem> {
        self.items@
    }
}

/// The next step of a walk over `items` keeps to the rule that a token for
/// more items comes last: where the first item after the promotions is a
/// token, nothing follows it.
pub open spec fn front_well_placed(items: Seq<RelatedItem>) -> bool {
    let rest = skip_promotions(items);
    rest.len() > 0 && rest[0] is ContinuationItemRenderer ==> rest.len() == 1
}

impl RelatedFeed {
    /// A walk over `items`.
    pub fn new(items: Vec<RelatedItem>) -> (f: RelatedFeed)
        ensures
            f@ == items@,
    {
        RelatedFeed { items }
    }

    /// Continues the walk with the items fetched for a token.
    pub fn refill(&mut self, items: Vec<RelatedItem>)
        ensures
            final(self)@ == old(self)@ + items@,
    {
        let mut items = items;
        self.items.append(&mut items);
    }

    /// Whether the next step keeps to the rule that a token for more items
    /// comes last.
    pub fn can_step(&self) -> (b: bool)
        ensures
            b == front_well_placed(self@),
    {
        let n = self.items.len();
        let mut i: usize = 0;
        assert(self.items@.subrange(0, n as int) =~= self.items@);
        while i < n
            invariant
                n == self.items@.len(),
                i <= n,
                skip_promotions(self.items@) == skip_promotions(
                    self.items@.subrange(i as int, n as int),
                ),
            ensures
                i <= n,
                skip_promotions(self.items@) == skip_promotions(
                    self.items@.subrange(i as int, n as int),
                ),
                i < n ==> !(self.items@[i as int] is PromotedSparklesWebRenderer),
            decreases n - i,
        {
            if let RelatedItem::PromotedSparklesWebRenderer {} = &self.items[i] {
                proof {
                    assert(self.items@.subrange(i as int, n as int).drop_first()
                        =~= self.items@.subrange(i + 1, n as int));
                }
                i += 1;
            } else {
                break;
            }
        }
        let ghost rest = self.items@.subrange(i as int, n as int);
        if i == n {
            proof {
                assert(rest.len() == 0);
            }
            return true;
        }
        proof {
            assert(rest[0] == self.items@[i as int]);
            assert(skip_promotions(rest) == rest);
        }
        match &self.items[i] {
            RelatedItem::ContinuationItemRenderer(_) => i + 1 == n,
            _ => true,
        }
    }

    /// The next step of the walk.
    pub fn step(&mut self) -> (s: RelatedStep)
        requires
            front_well_placed(old(self)@),
        ensures
            ({
                let rest = skip_promotions(old(self)@);
                if rest.len() == 0 {
                    s is Done && final(self)@.len() == 0
                } else {
                    &&& final(self)@ == rest.drop_first()
                    &&& match rest[0] {
                        RelatedItem::ContinuationItemRenderer(c) => s matches RelatedStep::Fetch(
                            t,
                        ) && t@ == c.continuation_endpoint.continuation_command.token@
                            && final(self)@.len() == 0,
                        _ => s matches RelatedStep::Item(r) && shown(rest[0], r),
                    }
                }
            }),
    {
        while self.items.len() > 0
            invariant
                skip_promotions(self.items@) == skip_promotions(old(self)@),
            ensures
                skip_promotions(self.items@) == skip_promotions(old(self)@),
                self.items@.len() > 0 ==> !(self.items@[0] is PromotedSparklesWebRenderer),
            decreases self.items@.len(),
        {
            if let RelatedItem::PromotedSparklesWebRenderer {} = &self.items[0] {
                let ghost before = self.items@;
                self.items.remove(0);
                proof {
                    assert(self.items@ =~= before.drop_first());
                }
            } else {
                break;
            }
        }
        if self.items.len() == 0 {
            return RelatedStep::Done;
        }
        let ghost before = self.items@;
        let item = self.items.remove(0);
        proof {
            assert(skip_promotions(before) == before);
            assert(before.remove(0) =~= before.drop_first());
        }
        match item {
            RelatedItem::CompactVideoRenderer(v) => RelatedStep::Item(Related::Video(related::Video::new(v))),
            RelatedItem::CompactPlaylistRenderer(p) => RelatedStep::Item(
                Related::Playlist(related::Playlist::new(p)),
            ),
            RelatedItem::CompactRadioRenderer(r) => RelatedStep::Item(Related::Radio(related::Radio::new(r))),
            RelatedItem::CompactMovieRenderer(m) => RelatedStep::Item(Related::Movie(related::Movie::new(m))),
            RelatedItem::ContinuationItemRenderer(c) => RelatedStep::Fetch(c.get()),
            RelatedItem::PromotedSparklesWebRenderer {} => RelatedStep::Done,
        }
    }
}

} // verus!
