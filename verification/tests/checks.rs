use ytextract::playlist::video::renderer_is_readable;
use ytextract::youtube::browse::channel::{
    C4TabbedHeaderRenderer, ChannelMetadataRenderer, Contents, Header, Metadata, Page,
    SimpleText as ChannelText, Tab, TabRenderer, Thumbnails as ChannelThumbnails,
    TwoColumnBrowseResultsRenderer,
};
use ytextract::youtube::browse::playlist::{PlaylistItem, PlaylistVideoRenderer};
use ytextract::youtube::browse::{alert_is_readable, AlertRenderer};
use ytextract::youtube::{Runs, SimpleText, Text, TitleRun};

#[test]
fn readable_alerts() {
    let simple = AlertRenderer {
        type_: "ERROR".to_string(),
        text: Text::SimpleText(SimpleText { simple_text: "gone".to_string() }),
    };
    assert!(alert_is_readable(&simple));
    let info = AlertRenderer {
        type_: "INFO".to_string(),
        text: Text::SimpleText(SimpleText { simple_text: "note".to_string() }),
    };
    assert!(!alert_is_readable(&info));
    let empty_runs = AlertRenderer { type_: "ERROR".to_string(), text: Text::Runs(Runs { runs: Vec::new() }) };
    assert!(!alert_is_readable(&empty_runs));
}

fn placeholder(title: &str) -> PlaylistVideoRenderer {
    PlaylistVideoRenderer::Unavailable {
        title: Runs { runs: vec![TitleRun { text: title.to_string() }] },
        video_id: ytextract::video::Id::from_str("MwCXB2byk58").unwrap(),
    }
}

#[test]
fn readable_placeholders() {
    assert!(renderer_is_readable(&placeholder("[Deleted video]")));
    assert!(renderer_is_readable(&placeholder("[Private video]")));
    assert!(!renderer_is_readable(&placeholder("[Unlisted video]")));
    let feed = ytextract::playlist::VideoFeed::new(vec![PlaylistItem::PlaylistVideoRenderer(
        placeholder("[Private video]"),
    )]);
    assert!(feed.can_step());
}

#[test]
fn channel_page_selected_tab() {
    let page: Page<u32> = Page {
        header: Header {
            c4_tabbed_header_renderer: C4TabbedHeaderRenderer {
                title: "Cooksie".to_string(),
                channel_id: ytextract::channel::Id::from_str("UCdktGrgQlqxPsvHo6cHF0Ng").unwrap(),
                avatar: ChannelThumbnails { thumbnails: Vec::new() },
                banner: ChannelThumbnails { thumbnails: Vec::new() },
                badges: Vec::new(),
                subscriber_count_text: ChannelText { simple_text: "146K subscribers".to_string() },
            },
        },
        metadata: Metadata {
            channel_metadata_renderer: ChannelMetadataRenderer { is_family_safe: true },
        },
        contents: Contents {
            two_column_browse_results_renderer: TwoColumnBrowseResultsRenderer {
                tabs: vec![
                    Tab::Absent {},
                    Tab::Present { tab_renderer: TabRenderer { content: 7 } },
                    Tab::Present { tab_renderer: TabRenderer { content: 9 } },
                ],
            },
        },
    };
    assert_eq!(*page.contents(), 7);
}
