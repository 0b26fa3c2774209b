use ytextract::playlist::video::{UnavailabilityReason, Video as PlaylistEntry};
use ytextract::playlist::{Playlist, VideoFeed, VideoStep};
use ytextract::youtube::browse::playlist::{
    Content, Content2, Content3, Contents, DateStats, ItemSectionRenderer, Microformat,
    MicroformatDataRenderer, Page, PlaylistItem, PlaylistSidebarItems, PlaylistSidebarPrimaryInfo,
    PlaylistSidebarPrimaryInfoRenderer, PlaylistSidebarRenderer, PlaylistSidebarSecondaryInfo,
    PlaylistSidebarSecondaryInfoRenderer, PlaylistVideo, PlaylistVideoListRenderer,
    PlaylistVideoRenderer, SectionListRenderer, Sidebar, Tab, TabRenderer,
    TwoColumnBrowseResultsRenderer, VideoOwner, VideoOwnerRenderer, VideoStats, ViewsStats,
};
use ytextract::youtube::browse::Result as BrowseResult;
use ytextract::youtube::{
    BrowseEndpoint, ChannelNameRun, ContinuationCommand, ContinuationEndpoint,
    ContinuationItemRenderer, NavigationEndpoint, Runs, Thumbnails, TitleRun,
};
use ytextract::Thumbnail;

fn thumbnails() -> Thumbnails {
    Thumbnails {
        thumbnails: vec![Thumbnail { url: "https://i.ytimg.com/p.jpg".to_string(), width: 1, height: 1 }],
    }
}

fn channel_runs() -> Runs<ChannelNameRun> {
    Runs {
        runs: vec![ChannelNameRun {
            text: "ATiltedTree".to_string(),
            navigation_endpoint: NavigationEndpoint {
                browse_endpoint: BrowseEndpoint {
                    browse_id: ytextract::channel::Id::from_str("UCZqdX9k5eyv1aO7i2746bXg").unwrap(),
                },
            },
        }],
    }
}

fn titled(s: &str) -> Runs<TitleRun> {
    Runs { runs: vec![TitleRun { text: s.to_string() }] }
}

fn available(id: &str, title: &str) -> PlaylistItem {
    PlaylistItem::PlaylistVideoRenderer(PlaylistVideoRenderer::Available(PlaylistVideo {
        video_id: ytextract::video::Id::from_str(id).unwrap(),
        thumbnail: thumbnails(),
        title: titled(title),
        short_byline_text: channel_runs(),
        length_seconds: 60,
    }))
}

fn unavailable(id: &str, title: &str) -> PlaylistItem {
    PlaylistItem::PlaylistVideoRenderer(PlaylistVideoRenderer::Unavailable {
        title: titled(title),
        video_id: ytextract::video::Id::from_str(id).unwrap(),
    })
}

fn continuation(token: &str) -> PlaylistItem {
    PlaylistItem::ContinuationItemRenderer(ContinuationItemRenderer {
        continuation_endpoint: ContinuationEndpoint {
            continuation_command: ContinuationCommand { token: token.to_string() },
        },
    })
}

fn page(videos: &str, views: &str, owner: bool, items: Vec<PlaylistItem>) -> Page {
    Page {
        contents: Contents {
            two_column_browse_results_renderer: TwoColumnBrowseResultsRenderer {
                tabs: (Tab {
                    tab_renderer: TabRenderer {
                        content: Content {
                            section_list_renderer: SectionListRenderer {
                                contents: (Content2 {
                                    item_section_renderer: ItemSectionRenderer {
                                        contents: (Content3 {
                                            playlist_video_list_renderer: PlaylistVideoListRenderer {
                                                contents: items,
                                            },
                                        },),
                                    },
                                },),
                            },
                        },
                    },
                },),
            },
        },
        microformat: Microformat {
            microformat_data_renderer: MicroformatDataRenderer {
                url_canonical: "http://www.youtube.com/playlist?list=PLCSusC_jlo14BH5hHnOh9b0O18HtGT3eP"
                    .to_string(),
                title: "ytextract - test".to_string(),
                description: "A".to_string(),
                thumbnail: thumbnails(),
                unlisted: true,
            },
        },
        sidebar: Sidebar {
            playlist_sidebar_renderer: PlaylistSidebarRenderer {
                items: PlaylistSidebarItems(
                    PlaylistSidebarPrimaryInfo {
                        playlist_sidebar_primary_info_renderer: PlaylistSidebarPrimaryInfoRenderer {
                            stats: (
                                VideoStats {
                                    runs: vec![
                                        TitleRun { text: videos.to_string() },
                                        TitleRun { text: " videos".to_string() },
                                    ],
                                },
                                ViewsStats { simple_text: views.to_string() },
                                DateStats {},
                            ),
                        },
                    },
                    if owner {
                        Some(PlaylistSidebarSecondaryInfo {
                            playlist_sidebar_secondary_info_renderer:
                                PlaylistSidebarSecondaryInfoRenderer {
                                    video_owner: VideoOwner {
                                        video_owner_renderer: VideoOwnerRenderer { title: channel_runs() },
                                    },
                                },
                        })
                    } else {
                        None
                    },
                ),
            },
        },
    }
}

#[test]
fn playlist_details() {
    let p = Playlist::new(page("121", "1,234 views", true, Vec::new()));
    assert_eq!(p.id().as_string(), "PLCSusC_jlo14BH5hHnOh9b0O18HtGT3eP");
    assert_eq!(p.title(), "ytextract - test");
    assert_eq!(p.description(), "A");
    assert!(p.unlisted());
    assert!(!p.thumbnails().is_empty());
    assert_eq!(p.length(), 121);
    assert_eq!(p.views(), 1_234);
    let c = p.channel().expect("Channel missing");
    assert_eq!(c.name(), "ATiltedTree");
    assert_eq!(c.id().as_string(), "UCZqdX9k5eyv1aO7i2746bXg");
}

#[test]
fn playlist_statistics_edge_cases() {
    let p = Playlist::new(page("No videos", "No views", false, Vec::new()));
    assert_eq!(p.length(), 0);
    assert_eq!(p.views(), 0);
    assert!(p.channel().is_none());
    let q = Playlist::new(page("1,500", "12,345,678 views", false, Vec::new()));
    assert_eq!(q.length(), 1_500);
    assert_eq!(q.views(), 12_345_678);
}

#[test]
fn playlist_from_reply() {
    let ok = Playlist::from_reply(BrowseResult::Page(page("1", "1 view", false, Vec::new())));
    assert!(ok.is_ok());
}

#[test]
fn unavailability_reasons() {
    assert_eq!(UnavailabilityReason::from_title("[Deleted video]"), UnavailabilityReason::Deleted);
    assert_eq!(UnavailabilityReason::from_title("[Private video]"), UnavailabilityReason::Private);
}

#[test]
fn playlist_entry_fields() {
    match available("1_ozXudbN-4", "Team Grimoire - C18H27NO3") {
        PlaylistItem::PlaylistVideoRenderer(r) => {
            let v: PlaylistEntry = PlaylistEntry::new(r).unwrap();
            assert_eq!(v.id().as_string(), "1_ozXudbN-4");
            assert_eq!(v.title(), "Team Grimoire - C18H27NO3");
            assert_eq!(v.length(), 60);
            assert_eq!(v.thumbnails().len(), 1);
            assert_eq!(v.channel().name(), "ATiltedTree");
            assert_eq!(v.channel().id().as_string(), "UCZqdX9k5eyv1aO7i2746bXg");
        }
        _ => panic!("expected a video"),
    }
}

#[test]
fn video_feed_walks_items() {
    let items = vec![
        available("Tk4J8s5T790", "First"),
        unavailable("MwCXB2byk58", "[Deleted video]"),
        unavailable("nI2e-J6fsuk", "[Private video]"),
        continuation("rest"),
    ];
    let p = Playlist::new(page("4", "0 views", false, items.clone()));
    assert_eq!(p.video_items().len(), 4);

    let mut feed = VideoFeed::new(items);
    match feed.step() {
        VideoStep::Item(Ok(v)) => assert_eq!(v.id().as_string(), "Tk4J8s5T790"),
        _ => panic!("expected a video"),
    }
    match feed.step() {
        VideoStep::Item(Err(e)) => {
            assert_eq!(e.id.as_string(), "MwCXB2byk58");
            assert_eq!(e.reason, UnavailabilityReason::Deleted);
        }
        _ => panic!("expected a deleted video"),
    }
    match feed.step() {
        VideoStep::Item(Err(e)) => assert_eq!(e.reason, UnavailabilityReason::Private),
        _ => panic!("expected a private video"),
    }
    match feed.step() {
        VideoStep::Fetch(token) => assert_eq!(token, "rest"),
        _ => panic!("expected a token"),
    }
    assert!(matches!(feed.step(), VideoStep::Done));
    feed.refill(vec![available("9bZkp7q19f0", "Last")]);
    match feed.step() {
        VideoStep::Item(Ok(v)) => assert_eq!(v.id().as_string(), "9bZkp7q19f0"),
        _ => panic!("expected a video"),
    }
    assert!(matches!(feed.step(), VideoStep::Done));
}

#[test]
fn playlist_entries_equal_by_id() {
    let a = match available("Tk4J8s5T790", "A") {
        PlaylistItem::PlaylistVideoRenderer(r) => PlaylistEntry::new(r).unwrap(),
        _ => panic!(),
    };
    let b = match available("Tk4J8s5T790", "B") {
        PlaylistItem::PlaylistVideoRenderer(r) => PlaylistEntry::new(r).unwrap(),
        _ => panic!(),
    };
    assert!(a == b);
}

#[test]
fn video_feed_token_replaces_the_rest() {
    let mut feed = VideoFeed::new(vec![continuation("rest"), available("Tk4J8s5T790", "Dropped")]);
    match feed.step() {
        VideoStep::Fetch(token) => assert_eq!(token, "rest"),
        _ => panic!("expected a token"),
    }
    assert!(matches!(feed.step(), VideoStep::Done));
}

#[test]
fn video_feed_unknown_placeholder() {
    let feed = VideoFeed::new(vec![unavailable("MwCXB2byk58", "[Gone]")]);
    assert!(!feed.can_step());
    let later = VideoFeed::new(vec![available("Tk4J8s5T790", "First"), unavailable("MwCXB2byk58", "[Gone]")]);
    assert!(later.can_step());
}
