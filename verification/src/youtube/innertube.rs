//! The requests of the innertube API, and the decisions taken on its replies.

use vstd::prelude::*;
use crate::error::{ErrorView, Youtube, YoutubeView};
use super::player_response::{spec_as_error, Result as PlayerResult, StreamResult};

verus! {

/// The address that every endpoint of the API lies under.
pub open spec fn base_url() -> Seq<char> {
    "https://youtubei.googleapis.com/youtubei/v1"@
}

/// The client that requests claim to come from.
pub struct Client {
    /// The language.
    pub hl: String,
    /// The country.
    pub gl: String,
    /// The name of the client.
    pub client_name: String,
    /// The screen the client shows on, where it is not the usual one.
    pub client_screen: Option<String>,
    /// The version of the client.
    pub client_version: String,
}

/// The context sent with every request.
pub struct Context {
    /// The client.
    pub client: Client,
}

/// The context is that of the English web client of the version the library
/// speaks, in the United States, shown on `screen` where it is `Some`.
pub open spec fn is_web_context(c: Context, screen: Option<Seq<char>>) -> bool {
    &&& c.client.hl@ == "en"@
    &&& c.client.gl@ == "US"@
    &&& c.client.client_name@ == "WEB"@
    &&& c.client.client_version@ == "2.20210622.10.0"@
    &&& match (c.client.client_screen, screen) {
        (Some(s), Some(t)) => s@ == t,
        (None, None) => true,
        _ => false,
    }
}

impl Context {
    /// The context of the web client.
    pub fn web() -> (c: Context)
        ensures
            is_web_context(c, None),
    {
        Context {
            client: Client {
                hl: "en".to_owned(),
                gl: "US".to_owned(),
                client_name: "WEB".to_owned(),
                client_screen: None,
                client_version: "2.20210622.10.0".to_owned(),
            },
        }
    }

    /// The context of the web client, embedded in another page.
    pub fn embedded() -> (c: Context)
        ensures
            is_web_context(c, Some("EMBED"@)),
    {
        Context {
            client: Client {
                hl: "en".to_owned(),
                gl: "US".to_owned(),
                client_name: "WEB".to_owned(),
                client_screen: Some("EMBED".to_owned()),
                client_version: "2.20210622.10.0".to_owned(),
            },
        }
    }
}

/// The address of the endpoint `endpoint`.
pub fn endpoint_url(endpoint: &str) -> (url: String)
    ensures
        url@ == base_url() + "/"@ + endpoint@,
{
    let mut url = "https://youtubei.googleapis.com/youtubei/v1".to_owned();
    url.append("/");
    url.append(endpoint);
    url
}

/// A page of a channel.
#[derive(Clone, Copy)]
pub enum ChannelPage {
    /// The page that describes the channel.
    About,
}

/// What the browse endpoint is asked for.
pub enum Browse {
    /// A playlist.
    Playlist(crate::playlist::Id),
    /// A page of a channel.
    Channel {
        /// The channel.
        id: crate::channel::Id,
        /// The page.
        page: ChannelPage,
    },
    /// The next part of something browsed before.
    Continuation(String),
}

/// The body of a request to the browse endpoint, without its context.
pub enum BrowseRequest {
    /// A request for a page by the identifier YouTube browses it under.
    Page {
        /// The identifier to browse.
        browse_id: String,
        /// The encoded parameters of the request.
        params: Option<String>,
    },
    /// A request for the next part of something browsed before.
    Continuation {
        /// The token naming that part.
        continuation: String,
    },
}

/// What the standard base64 encoding (with padding) of `bytes` is, as
/// `base64::encode` computes it.
pub uninterp spec fn base64_encode(bytes: Seq<u8>) -> Seq<char>;

/// Calls `base64::encode(bytes)`: the standard alphabet, with padding. The
/// result is the named one (`base64_encode`).
#[verifier::external_body]
fn base64_string(bytes: &[u8]) -> (s: String)
    ensures
        s@ == base64_encode(bytes@),
{
    base64::encode(bytes)
}

/// The parameters that ask for the videos of a playlist.
pub open spec fn playlist_params() -> Seq<u8> {
    seq![0xc2u8, 0x06u8, 0x02u8, 0x08u8, 0x00u8]
}

/// The parameters that ask for the about page of a channel: a field of
/// five bytes that reads `about`.
pub open spec fn about_params() -> Seq<u8> {
    seq![0x12u8, 0x05u8, 0x61u8, 0x62u8, 0x6fu8, 0x75u8, 0x74u8]
}

/// The request that asks the browse endpoint for `b`.
pub open spec fn spec_browse_request(b: Browse) -> BrowseRequestView {
    match b {
        Browse::Playlist(id) => BrowseRequestView::Page {
            browse_id: "VL"@ + id@,
            params: Some(base64_encode(playlist_params())),
        },
        Browse::Channel { id, page } => BrowseRequestView::Page {
            browse_id: id@,
            params: match page {
                ChannelPage::About => Some(base64_encode(about_params())),
            },
        },
        Browse::Continuation(c) => BrowseRequestView::Continuation { continuation: c@ },
    }
}

/// A request to the browse endpoint, by its texts.
pub enum BrowseRequestView {
    /// A request for a page.
    Page { browse_id: Seq<char>, params: Option<Seq<char>> },
    /// A request for the next part.
    Continuation { continuation: Seq<char> },
}

impl View for BrowseRequest {
    type V = BrowseRequestView;

    open spec fn view(&self) -> BrowseRequestView {
        match self {
            BrowseRequest::Page { browse_id, params } => BrowseRequestView::Page {
                browse_id: browse_id@,
                params: match params {
                    Some(p) => Some(p@),
                    None => None,
                },
            },
            BrowseRequest::Continuation { continuation } => BrowseRequestView::Continuation {
                continuation: continuation@,
            },
        }
    }
}

impl Browse {
    /// The request that asks the browse endpoint for this.
    pub fn request(self) -> (r: BrowseRequest)
        ensures
            r@ == spec_browse_request(self),
    {
        match self {
            Browse::Playlist(id) => {
                let mut browse_id = "VL".to_owned();
                let text = id.as_string();
                browse_id.append(text.as_str());
                let bytes: Vec<u8> = vec![0xc2u8, 0x06u8, 0x02u8, 0x08u8, 0x00u8];
                proof {
                    reveal_strlit("VL");
                    assert(bytes@ =~= playlist_params());
                }
                BrowseRequest::Page {
                    browse_id,
                    params: Some(base64_string(bytes.as_slice())),
                }
            },
            Browse::Channel { id, page } => {
                let browse_id = id.as_string();
                let params = match page {
                    ChannelPage::About => {
                        let bytes: Vec<u8> = vec![
                            0x12u8,
                            0x05u8,
                            0x61u8,
                            0x62u8,
                            0x6fu8,
                            0x75u8,
                            0x74u8,
                        ];
                        proof {
                            assert(bytes@ =~= about_params());
                        }
                        Some(base64_string(bytes.as_slice()))
                    },
                };
                BrowseRequest::Page { browse_id, params }
            },
            Browse::Continuation(continuation) => BrowseRequest::Continuation { continuation },
        }
    }
}

/// What the player endpoint's reply for the streams of a video leads to:
/// the reply itself where the video can be played, nothing (ask again,
/// embedded) where YouTube holds it back for age, else the error YouTube
/// reported.
pub open spec fn spec_streams_outcome(res: StreamResult) -> Option<
    std::result::Result<(), ErrorView>,
> {
    match res {
        PlayerResult::Playable(_) => Some(Ok(())),
        PlayerResult::Error { playability_status } => {
            let e = spec_as_error(playability_status.reason@);
            if e == YoutubeView::AgeRestricted {
                None
            } else {
                Some(Err(ErrorView::Youtube(e)))
            }
        },
    }
}

/// Decides on the reply of the player endpoint to a request for streams:
/// `Some` of the answer to give, or `None` where the request is to be made
/// again with the embedded context, whose reply is then the answer.
pub fn streams_outcome(res: StreamResult) -> (r: Option<crate::Result<StreamResult>>)
    ensures
        (match (r, spec_streams_outcome(res)) {
            (Some(Ok(v)), Some(Ok(()))) => v == res,
            (Some(Err(e)), Some(Err(f))) => e@ == f,
            (None, None) => true,
            _ => false,
        }),
{
    match res.into_std() {
        Ok(v) => Some(Ok(PlayerResult::Playable(v))),
        Err(crate::error::Error::Youtube(Youtube::AgeRestricted)) => None,
        Err(e) => Some(Err(e)),
    }
}

/// The second line of a text (as `str::lines().nth(1)`): what follows the
/// first line feed, up to the next line feed and without the carriage return
/// before it; `None` where nothing follows the first line feed.
pub open spec fn spec_second_line(text: Seq<char>) -> Option<Seq<char>> {
    match crate::text::find(text, seq!['\n']) {
        None => None,
        Some(i) => {
            let rest = text.subrange(i + 1, text.len() as int);
            if rest.len() == 0 {
                None
            } else {
                match crate::text::find(rest, seq!['\n']) {
                    None => Some(rest),
                    Some(j) => {
                        let line = rest.subrange(0, j);
                        if line.len() > 0 && line.last() == '\r' {
                            Some(line.drop_last())
                        } else {
                            Some(line)
                        }
                    },
                }
            }
        },
    }
}

/// The second line of `text`, where the configuration document carries its
/// JSON.
pub fn second_line(text: &str) -> (r: Option<String>)
    ensures
        (match r {
            Some(l) => spec_second_line(text@) == Some(l@),
            None => spec_second_line(text@) is None,
        }),
{
    let chars = crate::text::chars_of(text);
    let nl: Vec<char> = vec!['\n'];
    proof {
        assert(nl@ =~= seq!['\n']);
    }
    match crate::text::find_exec(chars.as_slice(), nl.as_slice()) {
        None => None,
        Some(i) => {
            let n = chars.len();
            proof {
                crate::text::lemma_find(chars@, nl@);
                assert(crate::text::occurs_at(chars@, nl@, i as int));
                assert(i + 1 <= n);
            }
            let rest = super::slice_chars(chars.as_slice(), i + 1, n);
            if rest.len() == 0 {
                None
            } else {
                match crate::text::find_exec(rest.as_slice(), nl.as_slice()) {
                    None => Some(crate::text::string_from_chars(rest.as_slice())),
                    Some(j) => {
                        proof {
                            crate::text::lemma_find(rest@, nl@);
                        }
                        let mut end = j;
                        if j > 0 && rest[j - 1] == '\r' {
                            end = j - 1;
                        }
                        let line = super::slice_chars(rest.as_slice(), 0, end);
                        proof {
                            if j > 0 {
                                assert(rest@.subrange(0, j as int).drop_last() =~= rest@.subrange(
                                    0,
                                    j - 1,
                                ));
                            }
                        }
                        Some(crate::text::string_from_chars(line.as_slice()))
                    },
                }
            }
        },
    }
}

} // verus!
