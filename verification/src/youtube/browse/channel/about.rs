//! The about page of a channel.

use vstd::prelude::*;

verus! {

/// The about page as the browse endpoint serves it, or its alert.
pub type Result = super::Result<Content>;

/// The about page.
pub type Root = super::Page<Content>;

/// The content of the about tab.
pub struct Content {
    /// The sections of the tab.
    pub section_list_renderer: ListRenderer<ItemSectionRenderer>,
}

/// A list of one item.
pub struct ListRenderer<T> {
    /// The item.
    pub contents: (T,),
}

/// A section of the about tab.
pub struct ItemSectionRenderer {
    /// The items of the section.
    pub item_section_renderer: ListRenderer<ChannelAbout>,
}

/// The description of a channel.
pub struct ChannelAbout {
    /// How the description is drawn.
    pub channel_about_full_metadata_renderer: ChannelAboutFullMetadataRenderer,
}

/// How the description of a channel is drawn.
pub struct ChannelAboutFullMetadataRenderer {
    /// The description.
    pub description: SimpleText,
    /// The number of views, as text.
    pub view_count_text: SimpleText,
    /// The country of the channel.
    pub country: Option<SimpleText>,
    /// The date on which the channel was created, as text.
    pub joined_date_text: JoinedDateText,
}

/// A single text.
pub struct SimpleText {
    /// The text.
    pub simple_text: String,
}

impl Default for SimpleText {
    fn default() -> (s: Self)
        ensures
            s.simple_text@ == Seq::<char>::empty(),
    {
        SimpleText { simple_text: String::new() }
    }
}

/// The text of the date on which a channel was created, in two runs.
pub struct JoinedDateText {
    /// The runs.
    pub runs: (Text, Text),
}

/// A run of text.
pub struct Text {
    /// The text.
    pub text: String,
}

} // verus!
