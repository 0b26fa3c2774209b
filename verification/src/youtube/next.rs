//! The watch page data of a video, as the next endpoint serves it.

use vstd::prelude::*;
use crate::text::{
    chars_of, digits_value, is_ascii_digit, lemma_parse_digits, lemma_remove_absent,
    lemma_remove_commas_digits, lemma_remove_concat, lemma_split_once_at, occurs_at, parse_u64,
    parse_u64_exec, remove_char, remove_char_exec, split_once, split_once_exec, string_from_chars,
};
use super::{
    parse_subscribers, spec_parse_subscribers, Badge, ChannelNameRuns,
    ContinuationItemRenderer, SimpleText, Text, Thumbnails, TitleRun,
};

verus! {

/// The watch page data of a video.
pub struct Root {
    /// The content of the page.
    pub contents: Contents,
}

/// The content of a watch page.
pub struct Contents {
    /// The two columns of the page.
    pub two_column_watch_next_results: TwoColumnWatchNextResults,
}

/// The two columns of a watch page.
pub struct TwoColumnWatchNextResults {
    /// The main column: the video's information.
    pub results: Results,
    /// The side column: related items, where shown.
    pub secondary_results: Option<SecondaryResults>,
}

/// The main column of a watch page.
pub struct Results {
    /// Its content.
    pub results: Results2,
}

/// The parts of the main column: primary information, secondary
/// information and comments, in that order.
pub struct Results2 {
    /// The parts.
    pub contents: Vec<Content>,
}

impl Results2 {
    /// The primary information of the video.
    pub fn primary(&self) -> (p: &VideoPrimaryInfoRenderer)
        requires
            self.contents@.len() > 0,
            self.contents@[0] is VideoPrimaryInfoRenderer,
        ensures
            self.contents@[0] == Content::VideoPrimaryInfoRenderer(*p),
        decreases 0nat,
    {
        match &self.contents[0] {
            Content::VideoPrimaryInfoRenderer(ret) => ret,
            _ => self.primary(),
        }
    }

    /// The secondary information of the video.
    pub fn secondary(&self) -> (p: &VideoSecondaryInfoRenderer)
        requires
            self.contents@.len() > 1,
            self.contents@[1] is VideoSecondaryInfoRenderer,
        ensures
            self.contents@[1] == Content::VideoSecondaryInfoRenderer(*p),
        decreases 0nat,
    {
        match &self.contents[1] {
            Content::VideoSecondaryInfoRenderer(ret) => ret,
            _ => self.secondary(),
        }
    }

    /// The token for the comments of the video, where it has comments.
    pub fn comments(&self) -> (c: Option<&ContinuationItemRenderer>)
        requires
            self.contents@.len() > 2,
            self.contents@[2] is ItemSectionRenderer,
        ensures
            self.contents@[2] matches Content::ItemSectionRenderer(s) && match c {
                Some(r) => s.contents.0.continuation_item_renderer == Some(*r),
                None => s.contents.0.continuation_item_renderer is None,
            },
    {
        match &self.contents[2] {
            Content::ItemSectionRenderer(ret) => match &ret.contents.0.continuation_item_renderer {
                Some(r) => Some(r),
                None => None,
            },
            _ => None,
        }
    }
}

/// A part of the main column of a watch page.
pub enum Content {
    /// The primary information: title, ratings, date.
    VideoPrimaryInfoRenderer(VideoPrimaryInfoRenderer),
    /// The secondary information: owner, description.
    VideoSecondaryInfoRenderer(VideoSecondaryInfoRenderer),
    /// The comment section.
    ItemSectionRenderer(ItemSectionRenderer),
    /// A merchandise shelf.
    MerchandiseShelfRenderer {},
}

/// The primary information of a video.
pub struct VideoPrimaryInfoRenderer {
    /// The bar of likes and dislikes, where ratings are allowed.
    pub sentiment_bar: Option<SentimentBar>,
    /// The hashtags above the title.
    pub super_title_link: SuperTitleLink,
    /// The upload date, as text.
    pub date_text: SimpleText,
}

/// The likes and dislikes that a tooltip `likes / dislikes` states, commas
/// aside.
pub open spec fn spec_tooltip_ratings(tooltip: Seq<char>) -> (u64, u64) {
    let parts = split_once(remove_char(tooltip, ','), " / "@).unwrap();
    (parse_u64(parts.0).unwrap(), parse_u64(parts.1).unwrap())
}

/// The likes are the number written before ` / ` and the dislikes the number
/// after it, commas aside, whichever is the larger: for runs `a` and `b` of
/// digits and commas, the tooltip `a / b` reads as the two numbers in order.
pub proof fn law_tooltip_ratings(a: Seq<char>, b: Seq<char>)
    requires
        forall|i: int| 0 <= i < a.len() ==> is_ascii_digit(#[trigger] a[i]) || a[i] == ',',
        forall|i: int| 0 <= i < b.len() ==> is_ascii_digit(#[trigger] b[i]) || b[i] == ',',
        remove_char(a, ',').len() > 0,
        remove_char(b, ',').len() > 0,
        digits_value(remove_char(a, ',')) <= u64::MAX,
        digits_value(remove_char(b, ',')) <= u64::MAX,
    ensures
        tooltip_readable(a + " / "@ + b),
        spec_tooltip_ratings(a + " / "@ + b) == (
            digits_value(remove_char(a, ',')) as u64,
            digits_value(remove_char(b, ',')) as u64,
        ),
{
    let sep = " / "@;
    reveal_strlit(" / ");
    let da = remove_char(a, ',');
    let db = remove_char(b, ',');
    lemma_remove_commas_digits(a);
    lemma_remove_commas_digits(b);
    lemma_remove_concat(a + sep, b, ',');
    lemma_remove_concat(a, sep, ',');
    lemma_remove_absent(sep, ',');
    let t = da + sep + db;
    assert(remove_char(a + sep + b, ',') == t);
    let n = da.len() as int;
    assert(t.subrange(n, n + 3) =~= sep);
    assert forall|k: int| 0 <= k < n implies !occurs_at(t, sep, k) by {
        assert(t[k] == da[k]);
        assert(is_ascii_digit(da[k]));
        if occurs_at(t, sep, k) {
            assert(t.subrange(k, k + 3)[0] == t[k]);
        }
    }
    lemma_split_once_at(t, sep, n);
    assert(t.subrange(0, n) =~= da);
    assert(t.subrange(n + 3, t.len() as int) =~= db);
    lemma_parse_digits(da);
    lemma_parse_digits(db);
}

/// The tooltip can be read: `likes / dislikes`, both numbers, commas aside.
pub open spec fn tooltip_readable(tooltip: Seq<char>) -> bool {
    &&& split_once(remove_char(tooltip, ','), " / "@) is Some
    &&& parse_u64(split_once(remove_char(tooltip, ','), " / "@).unwrap().0) is Some
    &&& parse_u64(split_once(remove_char(tooltip, ','), " / "@).unwrap().1) is Some
}

impl VideoPrimaryInfoRenderer {
    /// The ratings can be read wherever they are shown.
    pub open spec fn ratings_readable(self) -> bool {
        self.sentiment_bar matches Some(bar) ==> tooltip_readable(
            bar.sentiment_bar_renderer.tooltip@,
        )
    }

    /// The likes and dislikes of the video, where ratings are allowed.
    pub fn ratings(&self) -> (r: Option<(u64, u64)>)
        requires
            self.ratings_readable(),
        ensures
            match self.sentiment_bar {
                Some(bar) => r == Some(spec_tooltip_ratings(bar.sentiment_bar_renderer.tooltip@)),
                None => r is None,
            },
    {
        let bar = match &self.sentiment_bar {
            Some(bar) => bar,
            None => {
                return None;
            },
        };
        let chars = chars_of(bar.sentiment_bar_renderer.tooltip.as_str());
        let fixed = string_from_chars(remove_char_exec(chars.as_slice(), ',').as_slice());
        let (likes, dislikes) = split_once_exec(fixed.as_str(), " / ").unwrap();
        let likes = parse_u64_exec(chars_of(likes).as_slice()).unwrap();
        let dislikes = parse_u64_exec(chars_of(dislikes).as_slice()).unwrap();
        Some((likes, dislikes))
    }

    /// The hashtags the video is tagged with, in order.
    pub fn hashtags(&self) -> (h: Vec<&str>)
        ensures
            h@.len() == self.super_title_link.runs@.len(),
            forall|i: int|
                0 <= i < h@.len() ==> (#[trigger] h@[i])@ == self.super_title_link.runs@[i].text@,
    {
        let runs = &self.super_title_link.runs;
        let mut h: Vec<&str> = Vec::new();
        let mut i: usize = 0;
        while i < runs.len()
            invariant
                i <= runs@.len(),
                h@.len() == i,
                forall|k: int| 0 <= k < i ==> (#[trigger] h@[k])@ == runs@[k].text@,
            decreases runs@.len() - i,
        {
            h.push(runs[i].text.as_str());
            i += 1;
        }
        h
    }
}

/// The bar of likes and dislikes.
pub struct SentimentBar {
    /// How the bar is drawn.
    pub sentiment_bar_renderer: SentimentBarRenderer,
}

/// How the bar of likes and dislikes is drawn.
pub struct SentimentBarRenderer {
    /// The tooltip: `likes / dislikes`.
    pub tooltip: String,
}

/// The hashtags above a title.
pub struct SuperTitleLink {
    /// The hashtags, one run each.
    pub runs: Vec<TitleRun>,
}

impl Default for SuperTitleLink {
    fn default() -> (s: Self)
        ensures
            s.runs@.len() == 0,
    {
        SuperTitleLink { runs: Vec::new() }
    }
}

/// The secondary information of a video.
pub struct VideoSecondaryInfoRenderer {
    /// The channel that uploaded the video.
    pub owner: Owner,
    /// The metadata rows below the description.
    pub metadata_row_container: MetadataRowContainer,
}

/// The channel that uploaded a video.
pub struct Owner {
    /// How the channel is drawn.
    pub video_owner_renderer: VideoOwnerRenderer,
}

/// How the channel that uploaded a video is drawn.
pub struct VideoOwnerRenderer {
    /// The channel's thumbnails.
    pub thumbnail: Thumbnails,
    /// The number of subscribers, as text, where shown.
    pub subscriber_count_text: Option<SimpleText>,
}

impl VideoOwnerRenderer {
    /// The subscriber count can be read wherever it is shown: a count and a
    /// word separated by a space, the count readable and a number.
    pub open spec fn subscribers_readable(self) -> bool {
        self.subscriber_count_text matches Some(t) ==> {
            &&& split_once(t.simple_text@, " "@) is Some
            &&& spec_parse_subscribers(split_once(t.simple_text@, " "@).unwrap().0) is Some
        }
    }

    /// The number of subscribers, where shown.
    pub fn subscribers(&self) -> (n: Option<u64>)
        requires
            self.subscribers_readable(),
        ensures
            match self.subscriber_count_text {
                Some(t) => n == spec_parse_subscribers(split_once(t.simple_text@, " "@).unwrap().0),
                None => n is None,
            },
    {
        match &self.subscriber_count_text {
            Some(t) => {
                let (count, _) = split_once_exec(t.simple_text.as_str(), " ").unwrap();
                Some(parse_subscribers(count).unwrap())
            },
            None => None,
        }
    }

    /// The channel's thumbnails.
    pub fn thumbnails(&self) -> (t: &Vec<crate::Thumbnail>)
        ensures
            *t == self.thumbnail.thumbnails,
    {
        &self.thumbnail.thumbnails
    }
}

/// The metadata rows below a description.
pub struct MetadataRowContainer {
    /// How the rows are drawn.
    pub metadata_row_container_renderer: MetadataRowContainerRenderer,
}

/// How the metadata rows are drawn.
pub struct MetadataRowContainerRenderer {
    /// How many rows are collapsed.
    pub collapsed_item_count: i64,
}

/// The comment section.
pub struct ItemSectionRenderer {
    /// Its single item.
    pub contents: (Content2,),
}

/// The item of the comment section.
pub struct Content2 {
    /// The token for the comments, where the video has comments.
    pub continuation_item_renderer: Option<ContinuationItemRenderer>,
}

/// The side column of a watch page.
pub struct SecondaryResults {
    /// Its content.
    pub secondary_results: SecondaryResults2,
}

/// The related items of a watch page.
pub struct SecondaryResults2 {
    /// The items, in order.
    pub results: Vec<RelatedItem>,
}

/// An item related to a video.
#[derive(Clone)]
pub enum RelatedItem {
    /// A video.
    CompactVideoRenderer(CompactVideoRenderer),
    /// A playlist.
    CompactPlaylistRenderer(CompactPlaylistRenderer),
    /// A radio.
    CompactRadioRenderer(CompactRadioRenderer),
    /// A movie.
    CompactMovieRenderer(CompactMovieRenderer),
    /// The token for more items.
    ContinuationItemRenderer(ContinuationItemRenderer),
    /// A promotion.
    PromotedSparklesWebRenderer {},
}

/// A related video.
#[derive(Clone)]
pub struct CompactVideoRenderer {
    /// The video's identifier.
    pub video_id: crate::video::Id,
    /// The video's thumbnails.
    pub thumbnail: Thumbnails,
    /// The video's title.
    pub title: SimpleText,
    /// The channel that uploaded the video.
    pub short_byline_text: ChannelNameRuns,
    /// The number of views, as text, where shown.
    pub view_count_text: Option<Text>,
    /// The length, as text; absent for a livestream.
    pub length_text: Option<SimpleText>,
    /// The badges of the channel.
    pub owner_badges: Vec<Badge>,
}

/// A related playlist.
#[derive(Clone)]
pub struct CompactPlaylistRenderer {
    /// The playlist's identifier.
    pub playlist_id: String,
    /// The playlist's thumbnails.
    pub thumbnail: Thumbnails,
    /// The playlist's title.
    pub title: SimpleText,
    /// The channel that made the playlist, with a link where it has one.
    pub short_byline_text: super::Runs<OptionalChannelNameRun>,
    /// The number of videos, as short text.
    pub video_count_short_text: SimpleText,
    /// The badges of the channel.
    pub owner_badges: Vec<Badge>,
}

/// A related radio.
#[derive(Clone)]
pub struct CompactRadioRenderer {
    /// The radio's playlist identifier.
    pub playlist_id: String,
    /// The radio's thumbnails.
    pub thumbnail: Thumbnails,
    /// The radio's title.
    pub title: SimpleText,
}

/// A related movie.
#[derive(Clone)]
pub struct CompactMovieRenderer {
    /// The movie's identifier.
    pub video_id: crate::video::Id,
    /// The movie's thumbnails.
    pub thumbnail: Thumbnails,
    /// The movie's title.
    pub title: SimpleText,
    /// The movie's length, as text.
    pub length_text: SimpleText,
}

/// A run naming a channel, with a link where there is one.
#[derive(Clone)]
pub struct OptionalChannelNameRun {
    /// The name.
    pub text: String,
    /// The link, where there is one.
    pub navigation_endpoint: Option<super::NavigationEndpoint>,
}

/// More related items, as the next endpoint serves them.
pub struct Continuation {
    /// The single action that appends the items.
    pub on_response_received_endpoints: (OnResponseReceivedAction,),
}

impl Continuation {
    /// The items appended, in order.
    pub fn into_videos(self) -> (v: Vec<RelatedItem>)
        ensures
            v@ == self.on_response_received_endpoints.0.append_continuation_items_action.continuation_items@,
    {
        self.on_response_received_endpoints.0.append_continuation_items_action.continuation_items
    }
}

/// An action on the related items.
pub struct OnResponseReceivedAction {
    /// The action that appends items.
    pub append_continuation_items_action: AppendContinuationItemsAction,
}

/// The action that appends related items.
pub struct AppendContinuationItemsAction {
    /// The items, in order.
    pub continuation_items: Vec<RelatedItem>,
}

} // verus!
