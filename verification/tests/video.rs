use ytextract::video::related;
use ytextract::video::{Ratings, Related, RelatedFeed, RelatedStep, Video};
use ytextract::youtube::next::{
    CompactMovieRenderer, CompactPlaylistRenderer, CompactRadioRenderer, CompactVideoRenderer,
    Content, Content2, Contents, ItemSectionRenderer, MetadataRowContainer,
    MetadataRowContainerRenderer, OptionalChannelNameRun, Owner, RelatedItem, Results, Results2,
    Root, SecondaryResults, SecondaryResults2, SentimentBar, SentimentBarRenderer,
    SuperTitleLink, TwoColumnWatchNextResults, VideoOwnerRenderer, VideoPrimaryInfoRenderer,
    VideoSecondaryInfoRenderer,
};
use ytextract::youtube::player_response::{
    PlayabilityStatus, PlayerResponse, Result as PlayerResult, VideoDetails,
};
use ytextract::youtube::{
    Badge, BrowseEndpoint, ChannelNameRun, ContinuationCommand, ContinuationEndpoint,
    ContinuationItemRenderer, Date, MetadataBadgeRenderer, NavigationEndpoint, Runs, SimpleText,
    Text, Thumbnails, TitleRun, TitleRuns,
};
use ytextract::Thumbnail;

fn text(s: &str) -> SimpleText {
    SimpleText { simple_text: s.to_string() }
}

fn thumbnails() -> Thumbnails {
    Thumbnails {
        thumbnails: vec![Thumbnail { url: "https://i.ytimg.com/a.jpg".to_string(), width: 120, height: 90 }],
    }
}

fn video_id(s: &str) -> ytextract::video::Id {
    ytextract::video::Id::from_str(s).unwrap()
}

fn channel_id(s: &str) -> ytextract::channel::Id {
    ytextract::channel::Id::from_str(s).unwrap()
}

fn details() -> VideoDetails {
    VideoDetails {
        title: "I Sent Corridor Digital the WORST VFX Workstation".to_string(),
        video_id: video_id("7B2PIVSWtJA"),
        length_seconds: 1358,
        keywords: vec!["photoshop".to_string(), "adobe".to_string()],
        channel_id: channel_id("UCXuqSBlHAE6Xw-yeJA0Tunw"),
        author: "Linus Tech Tips".to_string(),
        short_description: "A description".to_string(),
        view_count: 1_000_000,
        is_live_content: false,
        thumbnail: thumbnails(),
    }
}

fn page(sentiment: Option<&str>, related: Option<Vec<RelatedItem>>) -> Root {
    let primary = VideoPrimaryInfoRenderer {
        sentiment_bar: sentiment.map(|t| SentimentBar {
            sentiment_bar_renderer: SentimentBarRenderer { tooltip: t.to_string() },
        }),
        super_title_link: SuperTitleLink {
            runs: vec![TitleRun { text: "#vfx".to_string() }, TitleRun { text: "#mac".to_string() }],
        },
        date_text: text("Apr 14, 2021"),
    };
    let secondary = VideoSecondaryInfoRenderer {
        owner: Owner {
            video_owner_renderer: VideoOwnerRenderer {
                thumbnail: thumbnails(),
                subscriber_count_text: Some(text("13.8M subscribers")),
            },
        },
        metadata_row_container: MetadataRowContainer {
            metadata_row_container_renderer: MetadataRowContainerRenderer { collapsed_item_count: 0 },
        },
    };
    let comments = ItemSectionRenderer {
        contents: (Content2 {
            continuation_item_renderer: Some(continuation("comments")),
        },),
    };
    Root {
        contents: Contents {
            two_column_watch_next_results: TwoColumnWatchNextResults {
                results: Results {
                    results: Results2 {
                        contents: vec![
                            Content::VideoPrimaryInfoRenderer(primary),
                            Content::VideoSecondaryInfoRenderer(secondary),
                            Content::ItemSectionRenderer(comments),
                        ],
                    },
                },
                secondary_results: related.map(|results| SecondaryResults {
                    secondary_results: SecondaryResults2 { results },
                }),
            },
        },
    }
}

fn continuation(token: &str) -> ContinuationItemRenderer {
    ContinuationItemRenderer {
        continuation_endpoint: ContinuationEndpoint {
            continuation_command: ContinuationCommand { token: token.to_string() },
        },
    }
}

fn compact_video(id: &str) -> CompactVideoRenderer {
    CompactVideoRenderer {
        video_id: video_id(id),
        thumbnail: thumbnails(),
        title: text("Gangnam Style"),
        short_byline_text: Runs {
            runs: vec![ChannelNameRun {
                text: "officialpsy".to_string(),
                navigation_endpoint: NavigationEndpoint {
                    browse_endpoint: BrowseEndpoint { browse_id: channel_id("UCrDkAvwZum-UTjHmzDI2iIw") },
                },
            }],
        },
        view_count_text: Some(Text::SimpleText(text("4,512,345,678 views"))),
        length_text: Some(text("4:13")),
        owner_badges: vec![Badge {
            metadata_badge_renderer: MetadataBadgeRenderer {
                style: "BADGE_STYLE_TYPE_VERIFIED_ARTIST".to_string(),
            },
        }],
    }
}

fn video() -> Video {
    Video::new(PlayerResponse { video_details: details() }, page(Some("1,068,917 / 51,745"), None))
}

#[test]
fn video_details() {
    let v = video();
    assert_eq!(v.title(), "I Sent Corridor Digital the WORST VFX Workstation");
    assert_eq!(v.id().as_string(), "7B2PIVSWtJA");
    assert_eq!(v.duration(), 1358);
    assert_eq!(v.keywords(), &vec!["photoshop".to_string(), "adobe".to_string()]);
    assert_eq!(v.description(), "A description");
    assert_eq!(v.views(), 1_000_000);
    assert!(!v.live());
    assert_eq!(v.thumbnails().len(), 1);
}

#[test]
fn video_channel() {
    let v = video();
    let c = v.channel();
    assert_eq!(c.id().as_string(), "UCXuqSBlHAE6Xw-yeJA0Tunw");
    assert_eq!(c.name(), "Linus Tech Tips");
    assert_eq!(c.subscribers(), Some(13_800_000));
    assert_eq!(c.thumbnails().len(), 1);
}

#[test]
fn video_ratings() {
    assert_eq!(video().ratings(), Ratings::Allowed { likes: 1_068_917, dislikes: 51_745 });
    let hidden = Video::new(PlayerResponse { video_details: details() }, page(None, None));
    assert_eq!(hidden.ratings(), Ratings::NotAllowed);
}

#[test]
fn video_hashtags_and_date() {
    let v = video();
    assert_eq!(v.hashtags(), vec!["#vfx", "#mac"]);
    assert_eq!(v.date(), Date { year: 2021, month: 4, day: 14 });
    assert_eq!(v.checked_date(), Some(Date { year: 2021, month: 4, day: 14 }));
}

#[test]
fn video_equality_by_id() {
    let a = video();
    let b = Video::new(PlayerResponse { video_details: details() }, page(None, None));
    assert!(a == b);
    let mut other = details();
    other.video_id = video_id("9bZkp7q19f0");
    let c = Video::new(PlayerResponse { video_details: other }, page(None, None));
    assert!(a != c);
}

#[test]
fn video_from_replies() {
    let ok = Video::from_replies(
        PlayerResult::Playable(PlayerResponse { video_details: details() }),
        page(None, None),
    );
    assert!(ok.is_ok());
    let err = Video::from_replies(
        PlayerResult::Error {
            playability_status: PlayabilityStatus {
                reason: "This video is no longer available due to a copyright claim by Richard DiBacco"
                    .to_string(),
            },
        },
        page(None, None),
    );
    match err {
        Err(ytextract::Error::Youtube(ytextract::error::Youtube::CopyrightClaim { claiment })) => {
            assert_eq!(claiment, "Richard DiBacco")
        }
        _ => panic!("expected a copyright claim"),
    }
}

#[test]
fn comments_token() {
    let p = page(None, None);
    let results = &p.contents.two_column_watch_next_results.results.results;
    assert_eq!(results.comments().map(|c| c.get()), Some("comments".to_string()));
}

#[test]
fn related_video_fields() {
    let r = related::Video::new(compact_video("9bZkp7q19f0"));
    assert_eq!(r.id().as_string(), "9bZkp7q19f0");
    assert_eq!(r.title(), "Gangnam Style");
    assert_eq!(r.views(), Some(4_512_345_678));
    assert_eq!(r.length(), Some(253));
    let c = r.channel();
    assert_eq!(c.id().map(|i| i.as_string()), Some("UCrDkAvwZum-UTjHmzDI2iIw".to_string()));
    assert_eq!(c.name(), "officialpsy");
    assert_eq!(c.badges()[0].metadata_badge_renderer.style, "BADGE_STYLE_TYPE_VERIFIED_ARTIST");
}

#[test]
fn related_video_views_from_runs() {
    let mut renderer = compact_video("9bZkp7q19f0");
    renderer.view_count_text = Some(Text::Runs(TitleRuns {
        runs: vec![TitleRun { text: "1,234".to_string() }, TitleRun { text: " watching".to_string() }],
    }));
    renderer.length_text = None;
    let r = related::Video::new(renderer);
    assert_eq!(r.views(), Some(1_234));
    assert_eq!(r.length(), None);
}

#[test]
fn related_playlist_radio_movie() {
    let p = related::Playlist::new(CompactPlaylistRenderer {
        playlist_id: "PLCSusC_jlo14BH5hHnOh9b0O18HtGT3eP".to_string(),
        thumbnail: thumbnails(),
        title: text("Mix"),
        short_byline_text: Runs {
            runs: vec![OptionalChannelNameRun { text: "YouTube".to_string(), navigation_endpoint: None }],
        },
        video_count_short_text: text("50+"),
        owner_badges: Vec::new(),
    });
    assert_eq!(p.id().as_string(), "PLCSusC_jlo14BH5hHnOh9b0O18HtGT3eP");
    assert_eq!(p.title(), "Mix");
    assert!(p.channel().id().is_none());
    assert_eq!(p.channel().name(), "YouTube");

    let radio = related::Radio::new(CompactRadioRenderer {
        playlist_id: "RD9bZkp7q19f0".to_string(),
        thumbnail: thumbnails(),
        title: text("Radio"),
    });
    assert_eq!(radio.id().as_string(), "RD9bZkp7q19f0");
    assert_eq!(radio.title(), "Radio");
    assert_eq!(radio.thumbnails().len(), 1);

    let movie = related::Movie::new(CompactMovieRenderer {
        video_id: video_id("nI2e-J6fsuk"),
        thumbnail: thumbnails(),
        title: text("A Movie"),
        length_text: text("1:32:05"),
    });
    assert_eq!(movie.id().as_string(), "nI2e-J6fsuk");
    assert_eq!(movie.title(), "A Movie");
    assert_eq!(movie.length(), 5525);
}

#[test]
fn related_equality_by_id() {
    let a = Related::Video(related::Video::new(compact_video("9bZkp7q19f0")));
    let b = Related::Video(related::Video::new(compact_video("9bZkp7q19f0")));
    let c = Related::Video(related::Video::new(compact_video("nI2e-J6fsuk")));
    assert!(a == b);
    assert!(a != c);
}

#[test]
fn related_feed_walks_items() {
    let items = vec![
        RelatedItem::PromotedSparklesWebRenderer {},
        RelatedItem::CompactVideoRenderer(compact_video("9bZkp7q19f0")),
        RelatedItem::CompactRadioRenderer(CompactRadioRenderer {
            playlist_id: "RDabc".to_string(),
            thumbnail: thumbnails(),
            title: text("Radio"),
        }),
        RelatedItem::ContinuationItemRenderer(continuation("more")),
    ];
    let v = Video::new(PlayerResponse { video_details: details() }, page(None, Some(items.clone())));
    assert_eq!(v.related_items().map(|r| r.len()), Some(4));

    let mut feed = RelatedFeed::new(items);
    assert!(feed.can_step());
    match feed.step() {
        RelatedStep::Item(Related::Video(r)) => assert_eq!(r.id().as_string(), "9bZkp7q19f0"),
        _ => panic!("expected a video"),
    }
    match feed.step() {
        RelatedStep::Item(Related::Radio(r)) => assert_eq!(r.id().as_string(), "RDabc"),
        _ => panic!("expected a radio"),
    }
    match feed.step() {
        RelatedStep::Fetch(token) => assert_eq!(token, "more"),
        _ => panic!("expected a token"),
    }
    assert!(matches!(feed.step(), RelatedStep::Done));
    feed.refill(vec![RelatedItem::CompactVideoRenderer(compact_video("nI2e-J6fsuk"))]);
    match feed.step() {
        RelatedStep::Item(Related::Video(r)) => assert_eq!(r.id().as_string(), "nI2e-J6fsuk"),
        _ => panic!("expected a video"),
    }
    assert!(matches!(feed.step(), RelatedStep::Done));
}

#[test]
fn misplaced_continuation() {
    let misplaced = RelatedFeed::new(vec![
        RelatedItem::PromotedSparklesWebRenderer {},
        RelatedItem::ContinuationItemRenderer(continuation("more")),
        RelatedItem::CompactVideoRenderer(compact_video("9bZkp7q19f0")),
    ]);
    assert!(!misplaced.can_step());
    let last = RelatedFeed::new(vec![
        RelatedItem::PromotedSparklesWebRenderer {},
        RelatedItem::ContinuationItemRenderer(continuation("more")),
    ]);
    assert!(last.can_step());
    let video_first = RelatedFeed::new(vec![
        RelatedItem::CompactVideoRenderer(compact_video("9bZkp7q19f0")),
        RelatedItem::ContinuationItemRenderer(continuation("more")),
        RelatedItem::CompactVideoRenderer(compact_video("nI2e-J6fsuk")),
    ]);
    assert!(video_first.can_step());
    assert!(RelatedFeed::new(Vec::new()).can_step());
}

#[test]
fn related_walk_skips_only_promotions() {
    let items = vec![
        RelatedItem::PromotedSparklesWebRenderer {},
        RelatedItem::PromotedSparklesWebRenderer {},
        RelatedItem::CompactVideoRenderer(compact_video("9bZkp7q19f0")),
        RelatedItem::PromotedSparklesWebRenderer {},
        RelatedItem::CompactVideoRenderer(compact_video("nI2e-J6fsuk")),
        RelatedItem::PromotedSparklesWebRenderer {},
    ];
    let mut feed = RelatedFeed::new(items);
    let mut ids = Vec::new();
    loop {
        assert!(feed.can_step());
        match feed.step() {
            RelatedStep::Item(Related::Video(v)) => ids.push(v.id().as_string()),
            RelatedStep::Done => break,
            _ => panic!("expected videos only"),
        }
    }
    assert_eq!(ids, vec!["9bZkp7q19f0".to_string(), "nI2e-J6fsuk".to_string()]);
}
