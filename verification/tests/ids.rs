use ytextract::channel;
use ytextract::error::Id as IdError;
use ytextract::id::validate_char;
use ytextract::playlist;
use ytextract::video;

#[test]
fn video_id_from_bare_id() {
    let id = video::Id::from_str("nI2e-J6fsuk").unwrap();
    assert_eq!(id.as_string(), "nI2e-J6fsuk");
}

#[test]
fn video_id_from_urls() {
    let bare = video::Id::from_str("7B2PIVSWtJA").unwrap();
    for url in [
        "https://www.youtube.com/watch?v=7B2PIVSWtJA",
        "https://youtu.be/7B2PIVSWtJA",
        "https://www.youtube.com/embed/7B2PIVSWtJA",
    ] {
        let id = video::Id::from_str(url).unwrap();
        assert_eq!(id.as_string(), "7B2PIVSWtJA");
        assert!(id == bare);
    }
}

#[test]
fn video_id_parse_trait() {
    let id: video::Id = "https://youtu.be/9bZkp7q19f0".parse().unwrap();
    assert_eq!(id.as_string(), "9bZkp7q19f0");
}

#[test]
fn video_id_invalid_char() {
    match video::Id::from_str("7B2PIVSWt!A") {
        Err(IdError::InvalidId(s)) => assert_eq!(s, "7B2PIVSWt!A"),
        _ => panic!("expected an invalid id"),
    }
}

#[test]
fn video_id_invalid_length() {
    match video::Id::from_str("7B2PIVSWtJAx") {
        Err(IdError::InvalidLength(n)) => assert_eq!(n, 12),
        _ => panic!("expected an invalid length"),
    }
    match video::Id::from_str("https://youtu.be/abc") {
        Err(IdError::InvalidLength(n)) => assert_eq!(n, 3),
        _ => panic!("expected an invalid length"),
    }
}

#[test]
fn video_ids_differ() {
    let a = video::Id::from_str("7B2PIVSWtJA").unwrap();
    let b = video::Id::from_str("9bZkp7q19f0").unwrap();
    assert!(a != b);
}

#[test]
fn channel_id_from_bare_and_url() {
    let a = channel::Id::from_str("UCdktGrgQlqxPsvHo6cHF0Ng").unwrap();
    let b = channel::Id::from_str("https://www.youtube.com/channel/UCdktGrgQlqxPsvHo6cHF0Ng")
        .unwrap();
    assert_eq!(a.as_string(), "UCdktGrgQlqxPsvHo6cHF0Ng");
    assert!(a == b);
}

#[test]
fn channel_id_errors() {
    match channel::Id::from_str("UCdktGrgQlqxPsvHo6cHF0N?") {
        Err(channel::IdError::InvalidId(s)) => assert_eq!(s, "UCdktGrgQlqxPsvHo6cHF0N?"),
        _ => panic!("expected an invalid id"),
    }
    match channel::Id::from_str("UCdktGrgQlqx") {
        Err(channel::IdError::InvalidLength(n)) => assert_eq!(n, 12),
        _ => panic!("expected an invalid length"),
    }
}

#[test]
fn playlist_id_from_bare_and_url() {
    let a = playlist::Id::from_str("PLCSusC_jlo14BH5hHnOh9b0O18HtGT3eP").unwrap();
    let b = playlist::Id::from_str(
        "https://www.youtube.com/playlist?list=PLCSusC_jlo15M6x0Ot8gznM-QA8CriNk4",
    )
    .unwrap();
    assert_eq!(a.as_string(), "PLCSusC_jlo14BH5hHnOh9b0O18HtGT3eP");
    assert_eq!(b.as_string(), "PLCSusC_jlo15M6x0Ot8gznM-QA8CriNk4");
    assert!(a != b);
}

#[test]
fn playlist_id_prefixes() {
    for id in ["RDabc", "ULabc", "UUabc", "PUabc", "OLabc", "LLabc", "FLabc", "WLabc"] {
        assert_eq!(playlist::Id::from_str(id).unwrap().as_string(), id);
    }
    match playlist::Id::from_str("XXabc") {
        Err(IdError::InvalidId(s)) => assert_eq!(s, "XXabc"),
        _ => panic!("expected an invalid id"),
    }
    match playlist::Id::from_str("PL a") {
        Err(IdError::InvalidId(s)) => assert_eq!(s, "PL a"),
        _ => panic!("expected an invalid id"),
    }
}

#[test]
fn id_characters() {
    for c in ['0', '9', 'a', 'z', 'A', 'Z', '_', '-'] {
        assert!(validate_char(c));
    }
    for c in ['!', ' ', '/', '=', 'é'] {
        assert!(!validate_char(c));
    }
}

#[test]
fn ids_round_trip() {
    let v = video::Id::from_str("https://youtu.be/nI2e-J6fsuk").unwrap();
    assert!(video::Id::from_str(&v.as_string()).unwrap() == v);
    let c = channel::Id::from_str("UCZqdX9k5eyv1aO7i2746bXg").unwrap();
    assert!(channel::Id::from_str(&c.as_string()).unwrap() == c);
    let p = playlist::Id::from_str("PLCSusC_jlo14F22jss8ZtDLbpmRQIVLzr").unwrap();
    assert!(playlist::Id::from_str(&p.as_string()).unwrap() == p);
}
