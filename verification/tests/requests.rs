use ytextract::error::Youtube;
use ytextract::youtube::innertube::{
    endpoint_url, second_line, streams_outcome, Browse, BrowseRequest, ChannelPage, Context,
};
use ytextract::youtube::player_response::{
    PlayabilityStatus, Result as PlayerResult, StreamPlayerResponse, StreamingData,
};
use ytextract::youtube::tv_config::Config;
use ytextract::youtube::video_info::RequestParameters;

#[test]
fn browse_playlist_request() {
    let id = ytextract::playlist::Id::from_str("PLCSusC_jlo15M6x0Ot8gznM-QA8CriNk4").unwrap();
    match Browse::Playlist(id).request() {
        BrowseRequest::Page { browse_id, params } => {
            assert_eq!(browse_id, "VLPLCSusC_jlo15M6x0Ot8gznM-QA8CriNk4");
            assert_eq!(params.as_deref(), Some("wgYCCAA="));
        }
        BrowseRequest::Continuation { .. } => panic!("expected a page request"),
    }
}

#[test]
fn browse_channel_about_request() {
    let id = ytextract::channel::Id::from_str("UCdktGrgQlqxPsvHo6cHF0Ng").unwrap();
    match (Browse::Channel { id, page: ChannelPage::About }).request() {
        BrowseRequest::Page { browse_id, params } => {
            assert_eq!(browse_id, "UCdktGrgQlqxPsvHo6cHF0Ng");
            assert_eq!(params.as_deref(), Some("EgVhYm91dA=="));
        }
        BrowseRequest::Continuation { .. } => panic!("expected a page request"),
    }
}

#[test]
fn browse_continuation_request() {
    match Browse::Continuation("token123".to_string()).request() {
        BrowseRequest::Continuation { continuation } => assert_eq!(continuation, "token123"),
        BrowseRequest::Page { .. } => panic!("expected a continuation request"),
    }
}

#[test]
fn endpoints() {
    assert_eq!(endpoint_url("player"), "https://youtubei.googleapis.com/youtubei/v1/player");
    assert_eq!(endpoint_url("browse"), "https://youtubei.googleapis.com/youtubei/v1/browse");
}

#[test]
fn contexts() {
    let web = Context::web();
    assert_eq!(web.client.hl, "en");
    assert_eq!(web.client.gl, "US");
    assert_eq!(web.client.client_name, "WEB");
    assert_eq!(web.client.client_version, "2.20210622.10.0");
    assert_eq!(web.client.client_screen, None);
    let embedded = Context::embedded();
    assert_eq!(embedded.client.client_name, "WEB");
    assert_eq!(embedded.client.client_screen.as_deref(), Some("EMBED"));
}

#[test]
fn second_lines() {
    assert_eq!(second_line("first\nsecond\nthird").as_deref(), Some("second"));
    assert_eq!(second_line("first\r\nsecond\r\nthird").as_deref(), Some("second"));
    assert_eq!(second_line("first\nsecond").as_deref(), Some("second"));
    assert_eq!(second_line("first\n\nthird").as_deref(), Some(""));
    assert_eq!(second_line("first\n"), None);
    assert_eq!(second_line("first"), None);
    assert_eq!(second_line("a\nlast\r").as_deref(), Some("last\r"));
}

fn stream_error(reason: &str) -> PlayerResult<StreamPlayerResponse> {
    PlayerResult::Error { playability_status: PlayabilityStatus { reason: reason.to_string() } }
}

#[test]
fn streams_retry_when_age_restricted() {
    assert!(streams_outcome(stream_error("This video may be inappropriate for some users.")).is_none());
}

#[test]
fn streams_report_other_errors() {
    match streams_outcome(stream_error("This video is private")) {
        Some(Err(ytextract::Error::Youtube(Youtube::Private))) => {}
        _ => panic!("expected the private error"),
    }
}

#[test]
fn streams_keep_playable_reply() {
    let reply = PlayerResult::Playable(StreamPlayerResponse {
        streaming_data: StreamingData { adaptive_formats: Vec::new() },
    });
    match streams_outcome(reply) {
        Some(Ok(PlayerResult::Playable(p))) => assert!(p.streaming_data.adaptive_formats.is_empty()),
        _ => panic!("expected the reply back"),
    }
}

#[test]
fn player_script_address() {
    let config = Config::new(
        "/s/player/0d2b10a8/tv-player-ias.vflset/tv-player-ias.js".to_string(),
        "KEY".to_string(),
    );
    assert_eq!(
        config.js_url(),
        "https://www.youtube.com//s/player/0d2b10a8/player_ias.vflset/en_US/base.js"
    );
    assert_eq!(config.innertube_api_key(), "KEY");
}

#[test]
fn player_script_address_short_path() {
    let config = Config::new("abc".to_string(), String::new());
    assert_eq!(
        config.js_url(),
        "https://www.youtube.com/abc/player_ias.vflset/en_US/base.js"
    );
}

#[test]
fn video_info_parameters() {
    let id = ytextract::video::Id::from_str("nI2e-J6fsuk").unwrap();
    let p = RequestParameters::for_video(id);
    assert_eq!(p.video_id.as_string(), "nI2e-J6fsuk");
    assert_eq!(p.el, "embedded");
    assert_eq!(p.eurl, "https://youtube.googleapis.com/v/nI2e-J6fsuk");
    assert_eq!(p.hl, "en");
    assert_eq!(p.html5, 1);
}
