//! The video information that the `get_video_info` endpoint serves.

use vstd::prelude::*;

verus! {

/// The video information, URL-decoded.
pub struct VideoInfo {
    /// The player response of the video, as JSON text.
    pub player_response: String,
}

/// The query of a request for the information of a video.
pub struct RequestParameters {
    /// The video.
    pub video_id: crate::video::Id,
    /// Where the player is said to be: always `embedded`.
    pub el: String,
    /// The address of the embedding page.
    pub eurl: String,
    /// The language: always `en`.
    pub hl: String,
    /// Whether the player is the HTML5 one: always 1.
    pub html5: usize,
}

impl RequestParameters {
    /// The query that asks for the information of the video `id`, as an
    /// embedded HTML5 player in English would.
    pub fn for_video(id: crate::video::Id) -> (p: RequestParameters)
        ensures
            p.video_id@ == id@,
            p.el@ == "embedded"@,
            p.eurl@ == "https://youtube.googleapis.com/v/"@ + id@,
            p.hl@ == "en"@,
            p.html5 == 1,
    {
        let mut eurl = "https://youtube.googleapis.com/v/".to_owned();
        let text = id.as_string();
        eurl.append(text.as_str());
        RequestParameters {
            video_id: id,
            el: "embedded".to_owned(),
            eurl,
            hl: "en".to_owned(),
            html5: 1,
        }
    }
}

} // verus!
