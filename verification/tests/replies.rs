use ytextract::error::{Error, Youtube};
use ytextract::youtube::browse::{Alert, AlertRenderer, Result as BrowseResult};
use ytextract::youtube::player_response::{
    PlayabilityStatus, Result as PlayerResult, StreamPlayerResponse, StreamingData,
};
use ytextract::youtube::{SimpleText, Text, TitleRun, TitleRuns};

fn status(reason: &str) -> PlayabilityStatus {
    PlayabilityStatus { reason: reason.to_string() }
}

#[test]
fn fixed_reasons() {
    let cases = [
        ("This video is unavailable", Youtube::NotFound),
        (
            "This video is no longer available because the YouTube account associated with this video has been terminated.",
            Youtube::AccountTerminated,
        ),
        ("This video has been removed by the uploader", Youtube::RemovedByUploader),
        (
            "This video has been removed for violating YouTube's policy on nudity or sexual content",
            Youtube::NudityOrSexualContentViolation,
        ),
        ("This video is private", Youtube::Private),
        (
            "This video has been removed for violating YouTube's Terms of Service.",
            Youtube::TermsOfServiceViolation,
        ),
        (
            "This video is no longer available due to a privacy claim by a third party",
            Youtube::PrivacyClaim,
        ),
        ("This video requires payment to watch.", Youtube::PurchaseRequired),
        ("This video may be inappropriate for some users.", Youtube::AgeRestricted),
        ("This video is not available in your country", Youtube::GeoRestricted),
        (
            "This video is no longer available because the uploader has closed their YouTube account.",
            Youtube::AccountDeleted,
        ),
    ];
    for (reason, expected) in cases {
        assert_eq!(status(reason).as_error(), expected);
    }
}

#[test]
fn copyright_claim() {
    assert_eq!(
        status("This video is no longer available due to a copyright claim by Richard DiBacco")
            .as_error(),
        Youtube::CopyrightClaim { claiment: "Richard DiBacco".to_string() }
    );
}

#[test]
fn blocked_content() {
    assert_eq!(
        status("This video contains content from SME, who has blocked it in your country on copyright grounds.")
            .as_error(),
        Youtube::CopyrightClaim { claiment: "SME".to_string() }
    );
}

#[test]
fn unknown_reasons() {
    for reason in [
        "Something new",
        "This video is no longer available due to a copyright claim by",
        "This video contains content from SME",
    ] {
        assert_eq!(status(reason).as_error(), Youtube::Other(reason.to_string()));
    }
}

#[test]
fn player_reply_error() {
    let reply: PlayerResult<u8> = PlayerResult::Error { playability_status: status("This video is private") };
    assert!(matches!(reply.into_std(), Err(Error::Youtube(Youtube::Private))));
}

#[test]
fn player_reply_playable() {
    let reply: PlayerResult<u8> = PlayerResult::Playable(7);
    assert!(matches!(reply.into_std(), Ok(7)));
}

#[test]
fn stream_reply_copyright_claim() {
    let reply: PlayerResult<StreamPlayerResponse> = PlayerResult::Error {
        playability_status: status(
            "This video is no longer available due to a copyright claim by Richard DiBacco",
        ),
    };
    match ytextract::stream::streams_from_reply(reply) {
        Err(Error::Youtube(Youtube::CopyrightClaim { claiment })) => {
            assert_eq!(claiment, "Richard DiBacco")
        }
        _ => panic!("expected a copyright claim"),
    }
}

#[test]
fn stream_reply_empty() {
    let reply = PlayerResult::Playable(StreamPlayerResponse {
        streaming_data: StreamingData { adaptive_formats: Vec::new() },
    });
    match ytextract::stream::streams_from_reply(reply) {
        Ok(streams) => assert!(streams.is_empty()),
        Err(_) => panic!("expected no streams"),
    }
}

#[test]
fn browse_alert_simple_text() {
    let reply: BrowseResult<u8> = BrowseResult::Error {
        alerts: (Alert {
            alert_renderer: AlertRenderer {
                type_: "ERROR".to_string(),
                text: Text::SimpleText(SimpleText {
                    simple_text: "Something went wrong.".to_string(),
                }),
            },
        },),
    };
    match reply.into_std() {
        Err(Error::Youtube(Youtube::Alert(text))) => assert_eq!(text, "Something went wrong."),
        _ => panic!("expected an alert"),
    }
}

#[test]
fn browse_alert_runs() {
    let reply: BrowseResult<u8> = BrowseResult::Error {
        alerts: (Alert {
            alert_renderer: AlertRenderer {
                type_: "ERROR".to_string(),
                text: Text::Runs(TitleRuns {
                    runs: vec![
                        TitleRun { text: "This page is not available.".to_string() },
                        TitleRun { text: " More".to_string() },
                    ],
                }),
            },
        },),
    };
    match reply.into_std() {
        Err(Error::Youtube(Youtube::Alert(text))) => assert_eq!(text, "This page is not available."),
        _ => panic!("expected an alert"),
    }
}

#[test]
fn browse_page() {
    let reply: BrowseResult<u8> = BrowseResult::Page(3);
    assert!(matches!(reply.into_std(), Ok(3)));
}

fn alert(text: &str) -> BrowseResult<u8> {
    BrowseResult::Error {
        alerts: (Alert {
            alert_renderer: AlertRenderer {
                type_: "ERROR".to_string(),
                text: Text::SimpleText(SimpleText { simple_text: text.to_string() }),
            },
        },),
    }
}

#[test]
fn browse_alert_not_found() {
    assert!(matches!(
        alert("The playlist does not exist.").into_std(),
        Err(Error::Youtube(Youtube::NotFound))
    ));
    assert!(matches!(
        alert("This channel does not exist.").into_std(),
        Err(Error::Youtube(Youtube::NotFound))
    ));
}

#[test]
fn browse_alert_unviewable() {
    assert!(matches!(
        alert("This playlist type is unviewable.").into_std(),
        Err(Error::Youtube(Youtube::Unviewable))
    ));
}
