use ytextract::player::{Cipher, CipherPlan, ReverseCipher, SpliceCipher};
use ytextract::stream::common::cipher_fields;
use ytextract::stream::{streams_from_reply, Stream};
use ytextract::youtube::player_response::{
    AudioFormat, CommonFormat, Format, FormatType, Result as PlayerResult, StreamPlayerResponse,
    StreamingData, VideoFormat,
};

fn common(url: Option<&str>, cipher: Option<&str>) -> CommonFormat {
    CommonFormat {
        url: url.map(|u| u.to_string()),
        signature_cipher: cipher.map(|c| c.to_string()),
        mime_type: "video/mp4; codecs=\"avc1.640028\"".to_string(),
        itag: 137,
        content_length: Some(1_000),
        bitrate: 4_000_000,
        duration: Some(253_000),
    }
}

fn video_format(url: Option<&str>, cipher: Option<&str>) -> Format {
    Format {
        base: common(url, cipher),
        ty: FormatType::Video(VideoFormat {
            width: 1920,
            height: 1080,
            fps: 30,
            quality_label: "1080p".to_string(),
        }),
    }
}

fn audio_format() -> Format {
    Format {
        base: CommonFormat {
            url: Some("https://example.com/audio".to_string()),
            signature_cipher: None,
            mime_type: "audio/webm".to_string(),
            itag: 251,
            content_length: None,
            bitrate: 160_000,
            duration: None,
        },
        ty: FormatType::Audio(AudioFormat {
            audio_sample_rate: 48_000,
            audio_quality: "AUDIO_QUALITY_MEDIUM".to_string(),
            audio_channels: 2,
        }),
    }
}

#[test]
fn video_stream_fields() {
    let s = Stream::new(video_format(Some("https://example.com/v"), None));
    assert!(s.is_video());
    assert!(!s.is_audio());
    assert_eq!(s.mime_type(), "video/mp4; codecs=\"avc1.640028\"");
    assert_eq!(s.bitrate(), 4_000_000);
    assert_eq!(s.duration(), Some(253_000));
    assert_eq!(s.content_length(), Some(1_000));
    match &s {
        Stream::Video(v) => {
            assert_eq!(v.width(), 1920);
            assert_eq!(v.height(), 1080);
            assert_eq!(v.fps(), 30);
        }
        Stream::Audio(_) => panic!("expected a video stream"),
    }
}

#[test]
fn audio_stream_fields() {
    let s = Stream::new(audio_format());
    assert!(s.is_audio());
    assert_eq!(s.content_length(), None);
    match &s {
        Stream::Audio(a) => {
            assert_eq!(a.sample_rate(), 48_000);
            assert_eq!(a.channels(), 2);
        }
        Stream::Video(_) => panic!("expected an audio stream"),
    }
}

#[test]
fn plain_url() {
    let s = Stream::new(video_format(Some("https://example.com/v?x=1"), None));
    let plan = CipherPlan::new(Vec::new());
    assert_eq!(s.url(&plan), "https://example.com/v?x=1");
    assert_eq!(s.checked_url(&plan).as_deref(), Some("https://example.com/v?x=1"));
}

#[test]
fn signed_url() {
    let s = Stream::new(video_format(
        None,
        Some("s=ABCDEF&sp=sig&url=https%3A%2F%2Fexample.com%2Fvideoplayback%3Fa%3D1"),
    ));
    let plan = CipherPlan::new(vec![Cipher::Reverse(ReverseCipher)]);
    assert_eq!(s.url(&plan), "https://example.com/videoplayback?a=1&sig=FEDCBA");
    assert_eq!(
        s.checked_url(&plan).as_deref(),
        Some("https://example.com/videoplayback?a=1&sig=FEDCBA")
    );
}

#[test]
fn unusable_ciphers() {
    let plan = CipherPlan::new(vec![Cipher::Reverse(ReverseCipher)]);
    let none = Stream::new(video_format(None, None));
    assert!(none.checked_url(&plan).is_none());
    let missing = Stream::new(video_format(None, Some("s=ABC&url=https%3A%2F%2Fexample.com%2Fv%3Fa%3D1")));
    assert!(missing.checked_url(&plan).is_none());
    let no_query = Stream::new(video_format(None, Some("s=ABC&sp=sig&url=https%3A%2F%2Fexample.com%2Fv")));
    assert!(no_query.checked_url(&plan).is_none());
    let short = Stream::new(video_format(None, Some("s=AB&sp=sig&url=https%3A%2F%2Fexample.com%2Fv%3Fa%3D1")));
    let splice = CipherPlan::new(vec![Cipher::Splice(SpliceCipher { index: 3 })]);
    assert!(short.checked_url(&splice).is_none());
}

#[test]
fn cipher_fields_last_wins() {
    let pairs = vec![
        ("s".to_string(), "one".to_string()),
        ("sp".to_string(), "sig".to_string()),
        ("url".to_string(), "u".to_string()),
        ("s".to_string(), "two".to_string()),
    ];
    assert_eq!(
        cipher_fields(&pairs),
        Some(("two".to_string(), "sig".to_string(), "u".to_string()))
    );
    assert_eq!(cipher_fields(&pairs[..2].to_vec()), None);
}

#[test]
fn streams_of_reply() {
    let reply = PlayerResult::Playable(StreamPlayerResponse {
        streaming_data: StreamingData {
            adaptive_formats: vec![video_format(Some("https://example.com/v"), None), audio_format()],
        },
    });
    match streams_from_reply(reply) {
        Ok(streams) => {
            assert_eq!(streams.len(), 2);
            assert!(streams[0].is_video());
            assert!(streams[1].is_audio());
        }
        Err(_) => panic!("expected streams"),
    }
}

#[test]
fn content_lengths() {
    let known = Stream::new(video_format(Some("https://example.com/v"), None));
    assert_eq!(known.content_length_or(Some(5)).ok(), Some(1_000));
    let unknown = Stream::new(audio_format());
    assert_eq!(unknown.content_length_or(Some(5)).ok(), Some(5));
    assert!(matches!(
        unknown.content_length_or(None),
        Err(ytextract::Error::UnknownContentLength)
    ));
}
