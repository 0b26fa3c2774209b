//! The pages of a channel.

use vstd::prelude::*;

pub mod about;

verus! {

/// A channel page as the browse endpoint serves it, or its alert.
pub type Result<T> = super::Result<Page<T>>;

/// A channel page whose selected tab holds a `T`.
pub struct Page<T> {
    /// The header of the page.
    pub header: Header,
    /// The metadata of the channel.
    pub metadata: Metadata,
    /// The tabs of the page.
    pub contents: Contents<T>,
}

/// The content of the first tab that has one, if any.
pub open spec fn first_content<T>(tabs: Seq<Tab<T>>) -> Option<T>
    decreases tabs.len(),
{
    if tabs.len() == 0 {
        None
    } else {
        match tabs[0] {
            Tab::Present { tab_renderer } => Some(tab_renderer.content),
            Tab::Absent {  } => first_content(tabs.drop_first()),
        }
    }
}

impl<T> Page<T> {
    /// The tabs of the page.
    pub open spec fn tabs(self) -> Seq<Tab<T>> {
        self.contents.two_column_browse_results_renderer.tabs@
    }

    /// The content of the selected tab: the first tab that has content.
    pub fn contents(&self) -> (c: &T)
        requires
            first_content(self.tabs()) is Some,
        ensures
            Some(*c) == first_content(self.tabs()),
    {
        let tabs = &self.contents.two_column_browse_results_renderer.tabs;
        let n = tabs.len();
        let mut i: usize = 0;
        assert(tabs@.subrange(0, tabs@.len() as int) =~= tabs@);
        loop
            invariant
                n == tabs@.len(),
                i < tabs@.len(),
                tabs@ == self.tabs(),
                first_content(tabs@.subrange(i as int, tabs@.len() as int)) is Some,
                first_content(tabs@) == first_content(tabs@.subrange(i as int, tabs@.len() as int)),
            decreases tabs@.len() - i,
        {
            let ghost rest = tabs@.subrange(i as int, tabs@.len() as int);
            assert(rest.drop_first() =~= tabs@.subrange(i + 1, tabs@.len() as int));
            assert(rest[0] == tabs@[i as int]);
            match &tabs[i] {
                Tab::Present { tab_renderer } => {
                    return &tab_renderer.content;
                },
                Tab::Absent {  } => {},
            }
            i += 1;
        }
    }
}

/// The header of a channel page.
pub struct Header {
    /// How the header is drawn.
    pub c4_tabbed_header_renderer: C4TabbedHeaderRenderer,
}

/// How the header of a channel page is drawn.
pub struct C4TabbedHeaderRenderer {
    /// The name of the channel.
    pub title: String,
    /// The channel's identifier.
    pub channel_id: crate::channel::Id,
    /// The channel's avatar.
    pub avatar: Thumbnails,
    /// The channel's banner.
    pub banner: Thumbnails,
    /// The channel's badges.
    pub badges: Vec<Badge>,
    /// The number of subscribers, as text.
    pub subscriber_count_text: SimpleText,
}

/// A list of thumbnails.
pub struct Thumbnails {
    /// The thumbnails.
    pub thumbnails: Vec<crate::Thumbnail>,
}

impl Default for Thumbnails {
    fn default() -> (t: Self)
        ensures
            t.thumbnails@.len() == 0,
    {
        Thumbnails { thumbnails: Vec::new() }
    }
}

/// The metadata of a channel.
pub struct Metadata {
    /// How the metadata is drawn.
    pub channel_metadata_renderer: ChannelMetadataRenderer,
}

/// How the metadata of a channel is drawn.
pub struct ChannelMetadataRenderer {
    /// Whether the channel is family safe.
    pub is_family_safe: bool,
}

/// The tabs of a channel page.
pub struct Contents<T> {
    /// How the tabs are drawn.
    pub two_column_browse_results_renderer: TwoColumnBrowseResultsRenderer<T>,
}

/// How the tabs of a channel page are drawn.
pub struct TwoColumnBrowseResultsRenderer<T> {
    /// The tabs.
    pub tabs: Vec<Tab<T>>,
}

/// A single text.
pub struct SimpleText {
    /// The text.
    pub simple_text: String,
}

/// An empty object.
pub struct Empty {}

/// A tab of a channel page: the selected one has content.
pub enum Tab<T> {
    /// A tab with content.
    Present {
        /// How the tab is drawn.
        tab_renderer: TabRenderer<T>,
    },
    /// A tab without content.
    Absent {},
}

/// How a tab is drawn.
pub struct TabRenderer<T> {
    /// The content of the tab.
    pub content: T,
}

/// A badge shown beside a channel.
pub struct Badge {
    /// How the badge is drawn.
    pub metadata_badge_renderer: MetadataBadgeRenderer,
}

/// How a badge is drawn.
pub struct MetadataBadgeRenderer {
    /// The style of the badge.
    pub style: String,
}

} // verus!
