//! The page of a playlist.

use vstd::prelude::*;
use crate::text::{
    all_digits, chars_of, digits_value, is_ascii_digit, lemma_parse_digits, lemma_remove_absent,
    lemma_remove_commas_digits, lemma_remove_concat, lemma_split_once_at, occurs_at, parse_u64,
    parse_u64_exec, remove_char, remove_char_exec, split_once, split_once_exec, str_eq,
    unsigned_body,
};
use crate::youtube::{ChannelNameRuns, ContinuationItemRenderer, Runs, Thumbnails, TitleRun};

verus! {

/// A playlist page as the browse endpoint serves it, or its alert.
pub type Result = super::Result<Page>;

/// A playlist page.
pub struct Page {
    /// The list of videos.
    pub contents: Contents,
    /// The metadata of the playlist.
    pub microformat: Microformat,
    /// The sidebar with the playlist's statistics and owner.
    pub sidebar: Sidebar,
}

/// The list of videos of a playlist page.
pub struct Contents {
    /// How the list is drawn.
    pub two_column_browse_results_renderer: TwoColumnBrowseResultsRenderer,
}

impl Contents {
    /// The items of the list, in order.
    pub open spec fn items(self) -> Seq<PlaylistItem> {
        self.two_column_browse_results_renderer.tabs.0.tab_renderer.content.section_list_renderer.contents.0.item_section_renderer.contents.0.playlist_video_list_renderer.contents@
    }

    /// The items of the list, in order.
    pub fn into_videos(self) -> (v: Vec<PlaylistItem>)
        ensures
            v@ == self.items(),
    {
        self.two_column_browse_results_renderer.tabs.0.tab_renderer.content.section_list_renderer.contents.0.item_section_renderer.contents.0.playlist_video_list_renderer.contents
    }
}

/// How the list of videos is drawn.
pub struct TwoColumnBrowseResultsRenderer {
    /// The single tab.
    pub tabs: (Tab,),
}

/// The tab holding the list.
pub struct Tab {
    /// How the tab is drawn.
    pub tab_renderer: TabRenderer,
}

/// How the tab is drawn.
pub struct TabRenderer {
    /// The content of the tab.
    pub content: Content,
}

/// The content of the tab.
pub struct Content {
    /// The sections.
    pub section_list_renderer: SectionListRenderer,
}

/// The sections of the tab.
pub struct SectionListRenderer {
    /// The single section.
    pub contents: (Content2,),
}

/// A section of the tab.
pub struct Content2 {
    /// How the section is drawn.
    pub item_section_renderer: ItemSectionRenderer,
}

/// How a section is drawn.
pub struct ItemSectionRenderer {
    /// The single item.
    pub contents: (Content3,),
}

/// The item of the section.
#[derive(Clone)]
pub struct Content3 {
    /// The list of videos (empty where the page has none).
    pub playlist_video_list_renderer: PlaylistVideoListRenderer,
}

/// The list of videos.
#[derive(Clone)]
pub struct PlaylistVideoListRenderer {
    /// The items, in order.
    pub contents: Vec<PlaylistItem>,
}

impl Default for PlaylistVideoListRenderer {
    fn default() -> (r: Self)
        ensures
            r.contents@.len() == 0,
    {
        PlaylistVideoListRenderer { contents: Vec::new() }
    }
}

/// An item of the list: a video, or the token for the rest of the list.
#[derive(Clone)]
pub enum PlaylistItem {
    /// A video.
    PlaylistVideoRenderer(PlaylistVideoRenderer),
    /// The rest of the list.
    ContinuationItemRenderer(ContinuationItemRenderer),
}

/// A video of the list: one that can be watched, or a placeholder for one
/// that cannot.
#[derive(Clone)]
pub enum PlaylistVideoRenderer {
    /// A video that can be watched.
    Available(PlaylistVideo),
    /// A video that cannot be watched.
    Unavailable {
        /// The placeholder title that says why.
        title: Runs<TitleRun>,
        /// The video's identifier.
        video_id: crate::video::Id,
    },
}

/// A video of a playlist.
#[derive(Clone)]
pub struct PlaylistVideo {
    /// The video's identifier.
    pub video_id: crate::video::Id,
    /// The video's thumbnails.
    pub thumbnail: Thumbnails,
    /// The video's title.
    pub title: Runs<TitleRun>,
    /// The channel that uploaded the video.
    pub short_byline_text: ChannelNameRuns,
    /// The length of the video, in seconds.
    pub length_seconds: u64,
}

/// The metadata of a playlist.
#[derive(Clone)]
pub struct Microformat {
    /// How the metadata is drawn.
    pub microformat_data_renderer: MicroformatDataRenderer,
}

/// How the metadata of a playlist is drawn.
#[derive(Clone)]
pub struct MicroformatDataRenderer {
    /// The canonical URL of the playlist.
    pub url_canonical: String,
    /// The title.
    pub title: String,
    /// The description.
    pub description: String,
    /// The thumbnails.
    pub thumbnail: Thumbnails,
    /// Whether the playlist is unlisted.
    pub unlisted: bool,
}

/// The sidebar of a playlist page.
pub struct Sidebar {
    /// How the sidebar is drawn.
    pub playlist_sidebar_renderer: PlaylistSidebarRenderer,
}

/// How the sidebar is drawn.
pub struct PlaylistSidebarRenderer {
    /// The items of the sidebar.
    pub items: PlaylistSidebarItems,
}

/// The items of the sidebar: the statistics, and the owner where shown.
pub struct PlaylistSidebarItems(pub PlaylistSidebarPrimaryInfo, pub Option<PlaylistSidebarSecondaryInfo>);

/// The statistics of a playlist.
pub struct PlaylistSidebarPrimaryInfo {
    /// How the statistics are drawn.
    pub playlist_sidebar_primary_info_renderer: PlaylistSidebarPrimaryInfoRenderer,
}

/// The owner of a playlist.
#[derive(Clone)]
pub struct PlaylistSidebarSecondaryInfo {
    /// How the owner is drawn.
    pub playlist_sidebar_secondary_info_renderer: PlaylistSidebarSecondaryInfoRenderer,
}

/// How the statistics are drawn: videos, views, date.
pub struct PlaylistSidebarPrimaryInfoRenderer {
    /// The number of videos, the number of views and the date.
    pub stats: (VideoStats, ViewsStats, DateStats),
}

/// The number of videos, as runs such as `1,234` and ` videos`.
#[derive(Clone)]
pub struct VideoStats {
    /// The runs.
    pub runs: Vec<TitleRun>,
}

impl VideoStats {
    /// The count can be read: there is a first run, and unless it says
    /// `No videos` it is a number, commas aside.
    pub open spec fn readable(self) -> bool {
        &&& self.runs@.len() > 0
        &&& self.runs@[0].text@ != "No videos"@ ==> parse_u64(remove_char(self.runs@[0].text@, ','))
            is Some
    }

    /// The number of videos that the runs state.
    pub open spec fn spec_number(self) -> u64 {
        if self.runs@[0].text@ == "No videos"@ {
            0
        } else {
            parse_u64(remove_char(self.runs@[0].text@, ',')).unwrap()
        }
    }

    /// The number of videos.
    pub fn as_number(&self) -> (n: u64)
        requires
            self.readable(),
        ensures
            n == self.spec_number(),
    {
        let text = self.runs[0].text.as_str();
        if str_eq(text, "No videos") {
            0
        } else {
            let chars = chars_of(text);
            let digits = remove_char_exec(chars.as_slice(), ',');
            parse_u64_exec(digits.as_slice()).unwrap()
        }
    }
}

/// The number of views, as a text such as `1,234 views`.
#[derive(Clone)]
pub struct ViewsStats {
    /// The text.
    pub simple_text: String,
}

impl ViewsStats {
    /// The count can be read: the text has a space.
    pub open spec fn readable(self) -> bool {
        split_once(self.simple_text@, " "@) is Some
    }

    /// The number of views that the text states: the number before the first
    /// space, commas aside, or zero where that is no number.
    pub open spec fn spec_number(self) -> u64 {
        match parse_u64(remove_char(split_once(self.simple_text@, " "@).unwrap().0, ',')) {
            Some(n) => n,
            None => 0,
        }
    }

    /// The number of views.
    pub fn as_number(&self) -> (n: u64)
        requires
            self.readable(),
        ensures
            n == self.spec_number(),
    {
        let (first, _) = split_once_exec(self.simple_text.as_str(), " ").unwrap();
        let chars = chars_of(first);
        let digits = remove_char_exec(chars.as_slice(), ',');
        match parse_u64_exec(digits.as_slice()) {
            Some(n) => n,
            None => 0,
        }
    }
}

/// The view count is the number before the first space, commas aside,
/// whatever word follows: a text `n w` with `n` made of digits and commas
/// counts the number that those digits denote, `"1 view"` as well as
/// `"1,234 views"`.
pub proof fn law_views_number(v: ViewsStats, n: Seq<char>, w: Seq<char>)
    requires
        v.simple_text@ == n + " "@ + w,
        forall|i: int| 0 <= i < n.len() ==> is_ascii_digit(#[trigger] n[i]) || n[i] == ',',
        remove_char(n, ',').len() > 0,
        digits_value(remove_char(n, ',')) <= u64::MAX,
    ensures
        v.readable(),
        v.spec_number() == digits_value(remove_char(n, ',')) as u64,
{
    let sp = " "@;
    reveal_strlit(" ");
    let t = v.simple_text@;
    let k = n.len() as int;
    assert(t.subrange(k, k + 1) =~= sp);
    assert forall|j: int| 0 <= j < k implies !occurs_at(t, sp, j) by {
        assert(t[j] == n[j]);
        if occurs_at(t, sp, j) {
            assert(t.subrange(j, j + 1)[0] == t[j]);
        }
    }
    lemma_split_once_at(t, sp, k);
    assert(t.subrange(0, k) =~= n);
    lemma_remove_commas_digits(n);
    lemma_parse_digits(remove_char(n, ','));
}

/// A text whose first word is no number, such as `"No views"`, counts zero
/// views: where the text before the first space starts with something other
/// than a digit, a comma or a plus sign.
pub proof fn law_views_not_number(v: ViewsStats, n: Seq<char>, w: Seq<char>)
    requires
        v.simple_text@ == n + " "@ + w,
        forall|i: int| 0 <= i < n.len() ==> n[i] != ' ',
        n.len() > 0,
        !is_ascii_digit(n[0]),
        n[0] != ',',
        n[0] != '+',
    ensures
        v.readable(),
        v.spec_number() == 0,
{
    let sp = " "@;
    reveal_strlit(" ");
    let t = v.simple_text@;
    let k = n.len() as int;
    assert(t.subrange(k, k + 1) =~= sp);
    assert forall|j: int| 0 <= j < k implies !occurs_at(t, sp, j) by {
        assert(t[j] == n[j]);
        if occurs_at(t, sp, j) {
            assert(t.subrange(j, j + 1)[0] == t[j]);
        }
    }
    lemma_split_once_at(t, sp, k);
    assert(t.subrange(0, k) =~= n);
    let head = seq![n[0]];
    assert(head + n.drop_first() =~= n);
    lemma_remove_concat(head, n.drop_first(), ',');
    lemma_remove_absent(head, ',');
    let r = remove_char(n, ',');
    assert(r[0] == n[0]);
    assert(unsigned_body(r) == r);
    assert(!all_digits(r));
}

/// The date of the playlist (not read).
#[derive(Clone)]
pub struct DateStats {}

/// How the owner of a playlist is drawn.
#[derive(Clone)]
pub struct PlaylistSidebarSecondaryInfoRenderer {
    /// The owner.
    pub video_owner: VideoOwner,
}

/// The owner of a playlist.
#[derive(Clone)]
pub struct VideoOwner {
    /// How the owner is drawn.
    pub video_owner_renderer: VideoOwnerRenderer,
}

/// How the owner of a playlist is drawn.
#[derive(Clone)]
pub struct VideoOwnerRenderer {
    /// The runs naming the owner.
    pub title: ChannelNameRuns,
}

impl VideoOwnerRenderer {
    /// The name of the owner.
    pub fn name(&self) -> (s: &str)
        requires
            self.title.runs@.len() > 0,
        ensures
            s@ == self.title.runs@[0].text@,
    {
        self.title.runs[0].text.as_str()
    }

    /// The identifier of the owner's channel.
    pub fn id(&self) -> (id: crate::channel::Id)
        requires
            self.title.runs@.len() > 0,
        ensures
            id == self.title.runs@[0].navigation_endpoint.browse_endpoint.browse_id,
    {
        self.title.runs[0].navigation_endpoint.browse_endpoint.browse_id
    }
}

/// The rest of a playlist, as the browse endpoint serves it.
pub struct Continuation {
    /// The single action that appends the items.
    pub on_response_received_actions: (OnResponseReceivedAction,),
}

impl Continuation {
    /// The items appended to the list, in order.
    pub fn into_videos(self) -> (v: Vec<PlaylistItem>)
        ensures
            v@ == self.on_response_received_actions.0.append_continuation_items_action.continuation_items@,
    {
        self.on_response_received_actions.0.append_continuation_items_action.continuation_items
    }
}

/// An action on the list.
pub struct OnResponseReceivedAction {
    /// The action that appends items.
    pub append_continuation_items_action: AppendContinuationItemsAction,
}

/// The action that appends items to the list.
pub struct AppendContinuationItemsAction {
    /// The items, in order.
    pub continuation_items: Vec<PlaylistItem>,
}

} // verus!
