//! The player response of a video, as the player endpoint serves it.

use vstd::prelude::*;
use crate::error::{Youtube, YoutubeView};
use crate::text::{
    lemma_not_starts_with, starts_with, str_eq, strip_prefix, strip_prefix_exec, strip_suffix,
    strip_suffix_exec,
};
use super::Thumbnails;

verus! {

/// A player response, or the reason why the video cannot be played.
pub enum Result<T> {
    /// The video can be played.
    Playable(T),
    /// The video cannot be played.
    Error {
        /// Why not.
        playability_status: PlayabilityStatus,
    },
}

/// A player response carrying the streams of a video, or the reason why the
/// video cannot be played.
pub type StreamResult = Result<StreamPlayerResponse>;

impl<T> Result<T> {
    /// The response, or the reason as an error that YouTube reported.
    pub fn into_std(self) -> (r: crate::Result<T>)
        ensures
            self matches Result::Playable(v) ==> r matches Ok(w) && w == v,
            self matches Result::Error { playability_status } ==> r matches Err(e) && e@
                == crate::error::ErrorView::Youtube(spec_as_error(playability_status.reason@)),
    {
        match self {
            Result::Error { playability_status } => Err(
                crate::error::Error::Youtube(playability_status.as_error()),
            ),
            Result::Playable(v) => Ok(v),
        }
    }
}

/// The player response of a video.
#[derive(Clone)]
pub struct PlayerResponse {
    /// The details of the video.
    pub video_details: VideoDetails,
}

/// The details of a video.
#[derive(Clone)]
pub struct VideoDetails {
    /// The title.
    pub title: String,
    /// The identifier.
    pub video_id: crate::video::Id,
    /// The length, in seconds.
    pub length_seconds: u64,
    /// The keywords.
    pub keywords: Vec<String>,
    /// The identifier of the channel that uploaded the video.
    pub channel_id: crate::channel::Id,
    /// The name of the channel that uploaded the video.
    pub author: String,
    /// The description.
    pub short_description: String,
    /// The number of views.
    pub view_count: u64,
    /// Whether the video is or was a livestream.
    pub is_live_content: bool,
    /// The thumbnails.
    pub thumbnail: Thumbnails,
}

/// The player response that carries the streams of a video.
pub struct StreamPlayerResponse {
    /// The streams.
    pub streaming_data: StreamingData,
}

/// The streams of a video.
#[derive(Clone)]
pub struct StreamingData {
    /// The streams that hold only audio or only video.
    pub adaptive_formats: Vec<Format>,
}

/// A stream of a video.
#[derive(Clone)]
pub struct Format {
    /// What every stream has.
    pub base: CommonFormat,
    /// What only audio or only video streams have.
    pub ty: FormatType,
}

/// What every stream has.
#[derive(Clone)]
pub struct CommonFormat {
    /// The URL of the stream, where it is given plainly.
    pub url: Option<String>,
    /// The URL and the scrambled signature, URL-encoded, where the URL is not
    /// given plainly.
    pub signature_cipher: Option<String>,
    /// The mime type.
    pub mime_type: String,
    /// The format tag.
    pub itag: u64,
    /// The length in bytes, where known.
    pub content_length: Option<u64>,
    /// The bitrate.
    pub bitrate: u64,
    /// The approximate duration in milliseconds, where known.
    pub duration: Option<u64>,
}

/// What only audio or only video streams have.
#[derive(Clone)]
pub enum FormatType {
    /// An audio stream.
    Audio(AudioFormat),
    /// A video stream.
    Video(VideoFormat),
}

/// What only video streams have.
#[derive(Clone)]
pub struct VideoFormat {
    /// The width.
    pub width: u64,
    /// The height.
    pub height: u64,
    /// The frames per second.
    pub fps: u64,
    /// The quality, as a label.
    pub quality_label: String,
}

/// What only audio streams have.
#[derive(Clone)]
pub struct AudioFormat {
    /// The sample rate.
    pub audio_sample_rate: u64,
    /// The quality, as a label.
    pub audio_quality: String,
    /// The number of channels.
    pub audio_channels: u64,
}

/// Why a video cannot be played.
pub struct PlayabilityStatus {
    /// The reason, as YouTube words it.
    pub reason: String,
}

/// The text that opens a reason naming who claimed a copyright.
pub open spec fn claim_prefix() -> Seq<char> {
    "This video is no longer available due to a copyright claim by"@
}

/// The text that opens a reason naming whose content blocks a video.
pub open spec fn content_prefix() -> Seq<char> {
    "This video contains content from "@
}

/// The text that closes a reason naming whose content blocks a video.
pub open spec fn content_suffix() -> Seq<char> {
    ", who has blocked it in your country on copyright grounds."@
}

/// The reason is one of the fixed texts YouTube uses.
pub open spec fn fixed_reason(reason: Seq<char>) -> Option<YoutubeView> {
    if reason == "This video is unavailable"@ {
        Some(YoutubeView::NotFound)
    } else if reason
        == "This video is no longer available because the YouTube account associated with this video has been terminated."@ {
        Some(YoutubeView::AccountTerminated)
    } else if reason == "This video has been removed by the uploader"@ {
        Some(YoutubeView::RemovedByUploader)
    } else if reason
        == "This video has been removed for violating YouTube's policy on nudity or sexual content"@ {
        Some(YoutubeView::NudityOrSexualContentViolation)
    } else if reason == "This video is private"@ {
        Some(YoutubeView::Private)
    } else if reason == "This video has been removed for violating YouTube's Terms of Service."@ {
        Some(YoutubeView::TermsOfServiceViolation)
    } else if reason
        == "This video is no longer available due to a privacy claim by a third party"@ {
        Some(YoutubeView::PrivacyClaim)
    } else if reason == "This video requires payment to watch."@ {
        Some(YoutubeView::PurchaseRequired)
    } else if reason == "This video may be inappropriate for some users."@ {
        Some(YoutubeView::AgeRestricted)
    } else if reason == "This video is not available in your country"@ {
        Some(YoutubeView::GeoRestricted)
    } else if reason
        == "This video is no longer available because the uploader has closed their YouTube account."@ {
        Some(YoutubeView::AccountDeleted)
    } else {
        None
    }
}

/// The reason is one that [`PlayabilityStatus::as_error`] knows: a fixed
/// text, a copyright claim naming its claimant, or a block naming whose
/// content it is. Every other reason is reported as an unknown one.
pub open spec fn reason_known(reason: Seq<char>) -> bool {
    ||| fixed_reason(reason) is Some
    ||| starts_with(reason, claim_prefix()) && starts_with(reason, claim_prefix() + " "@)
    ||| !starts_with(reason, claim_prefix()) && starts_with(reason, content_prefix())
        && strip_suffix(strip_prefix(reason, content_prefix()).unwrap(), content_suffix()) is Some
}

/// The error that a reason stands for: the error of a fixed text; a
/// copyright claim naming its claimant, or a block naming whose content it
/// is; else, where the reason is none of these, the reason itself as an
/// unknown one.
pub open spec fn spec_as_error(reason: Seq<char>) -> YoutubeView {
    match fixed_reason(reason) {
        Some(e) => e,
        None => if starts_with(reason, claim_prefix()) {
            match strip_prefix(reason, claim_prefix() + " "@) {
                Some(who) => YoutubeView::CopyrightClaim { claiment: who },
                None => YoutubeView::Other(reason),
            }
        } else if starts_with(reason, content_prefix()) {
            match strip_suffix(strip_prefix(reason, content_prefix()).unwrap(), content_suffix()) {
                Some(who) => YoutubeView::CopyrightClaim { claiment: who },
                None => YoutubeView::Other(reason),
            }
        } else {
            YoutubeView::Other(reason)
        },
    }
}

impl PlayabilityStatus {
    /// The error that YouTube reports by this status.
    pub fn as_error(&self) -> (e: Youtube)
        ensures
            e@ == spec_as_error(self.reason@),
    {
        let reason = self.reason.as_str();
        if str_eq(reason, "This video is unavailable") {
            Youtube::NotFound
        } else if str_eq(
            reason,
            "This video is no longer available because the YouTube account associated with this video has been terminated.",
        ) {
            Youtube::AccountTerminated
        } else if str_eq(reason, "This video has been removed by the uploader") {
            Youtube::RemovedByUploader
        } else if str_eq(
            reason,
            "This video has been removed for violating YouTube's policy on nudity or sexual content",
        ) {
            Youtube::NudityOrSexualContentViolation
        } else if str_eq(reason, "This video is private") {
            Youtube::Private
        } else if str_eq(
            reason,
            "This video has been removed for violating YouTube's Terms of Service.",
        ) {
            Youtube::TermsOfServiceViolation
        } else if str_eq(
            reason,
            "This video is no longer available due to a privacy claim by a third party",
        ) {
            Youtube::PrivacyClaim
        } else if str_eq(reason, "This video requires payment to watch.") {
            Youtube::PurchaseRequired
        } else if str_eq(reason, "This video may be inappropriate for some users.") {
            Youtube::AgeRestricted
        } else if str_eq(reason, "This video is not available in your country") {
            Youtube::GeoRestricted
        } else if str_eq(
            reason,
            "This video is no longer available because the uploader has closed their YouTube account.",
        ) {
            Youtube::AccountDeleted
        } else if strip_prefix_exec(
            reason,
            "This video is no longer available due to a copyright claim by",
        ).is_some() {
            proof {
                assert("This video is no longer available due to a copyright claim by "@
                    == claim_prefix() + " "@) by {
                    reveal_strlit("This video is no longer available due to a copyright claim by ");
                    reveal_strlit("This video is no longer available due to a copyright claim by");
                    reveal_strlit(" ");
                    assert("This video is no longer available due to a copyright claim by "@
                        =~= claim_prefix() + " "@);
                }
            }
            match strip_prefix_exec(
                reason,
                "This video is no longer available due to a copyright claim by ",
            ) {
                Some(who) => Youtube::CopyrightClaim { claiment: who.to_owned() },
                None => Youtube::Other(reason.to_owned()),
            }
        } else {
            match strip_prefix_exec(reason, "This video contains content from ") {
                Some(rest) => match strip_suffix_exec(
                    rest,
                    ", who has blocked it in your country on copyright grounds.",
                ) {
                    Some(who) => Youtube::CopyrightClaim { claiment: who.to_owned() },
                    None => Youtube::Other(reason.to_owned()),
                },
                None => Youtube::Other(reason.to_owned()),
            }
        }
    }
}

/// Every reason is answered: a reason that is not a known one is reported as
/// an unknown reason, with its text.
pub proof fn law_unknown_reason(reason: Seq<char>)
    requires
        !reason_known(reason),
    ensures
        spec_as_error(reason) == YoutubeView::Other(reason),
{
}

/// Sequences that differ at an index both have are different.
proof fn lemma_differ_at(s: Seq<char>, t: Seq<char>, k: int)
    requires
        0 <= k < s.len(),
        k < t.len(),
        s[k] != t[k],
    ensures
        s != t,
{
}

/// A reason saying that a video is no longer available due to a copyright
/// claim by someone is known, and is reported as a copyright claim by them.
pub proof fn law_copyright_claim(who: Seq<char>)
    ensures
        reason_known(claim_prefix() + " "@ + who),
        spec_as_error(claim_prefix() + " "@ + who) == (YoutubeView::CopyrightClaim {
            claiment: who,
        }),
{
    reveal_strlit("This video is no longer available due to a copyright claim by");
    reveal_strlit(" ");
    reveal_strlit("This video is unavailable");
    reveal_strlit("This video is no longer available because the YouTube account associated with this video has been terminated.");
    reveal_strlit("This video has been removed by the uploader");
    reveal_strlit("This video has been removed for violating YouTube's policy on nudity or sexual content");
    reveal_strlit("This video is private");
    reveal_strlit("This video has been removed for violating YouTube's Terms of Service.");
    reveal_strlit("This video is no longer available due to a privacy claim by a third party");
    reveal_strlit("This video requires payment to watch.");
    reveal_strlit("This video may be inappropriate for some users.");
    reveal_strlit("This video is not available in your country");
    reveal_strlit("This video is no longer available because the uploader has closed their YouTube account.");
    let p = claim_prefix() + " "@;
    let r = p + who;
    assert(p.len() == 62);
    assert forall|k: int| 0 <= k < 61 implies r[k] == claim_prefix()[k] by {
        assert(r[k] == p[k]);
    }
    lemma_differ_at(r, "This video is unavailable"@, 14);
    lemma_differ_at(r, "This video is no longer available because the YouTube account associated with this video has been terminated."@, 34);
    lemma_differ_at(r, "This video has been removed by the uploader"@, 11);
    lemma_differ_at(r, "This video has been removed for violating YouTube's policy on nudity or sexual content"@, 11);
    lemma_differ_at(r, "This video is private"@, 14);
    lemma_differ_at(r, "This video has been removed for violating YouTube's Terms of Service."@, 11);
    lemma_differ_at(r, "This video is no longer available due to a privacy claim by a third party"@, 43);
    lemma_differ_at(r, "This video requires payment to watch."@, 11);
    lemma_differ_at(r, "This video may be inappropriate for some users."@, 11);
    lemma_differ_at(r, "This video is not available in your country"@, 16);
    lemma_differ_at(r, "This video is no longer available because the uploader has closed their YouTube account."@, 34);
    assert(fixed_reason(r) is None);
    assert(r.subrange(0, 61) =~= claim_prefix());
    assert(r.subrange(0, 62) =~= p);
    assert(r.subrange(62, r.len() as int) =~= who);
}

/// A reason saying that a video contains content from someone who has blocked
/// it on copyright grounds is known, and is reported as a copyright claim by
/// them.
pub proof fn law_blocked_content(who: Seq<char>)
    ensures
        reason_known(content_prefix() + who + content_suffix()),
        spec_as_error(content_prefix() + who + content_suffix()) == (YoutubeView::CopyrightClaim {
            claiment: who,
        }),
{
    reveal_strlit("This video contains content from ");
    reveal_strlit(", who has blocked it in your country on copyright grounds.");
    reveal_strlit("This video is no longer available due to a copyright claim by");
    reveal_strlit("This video is unavailable");
    reveal_strlit("This video is no longer available because the YouTube account associated with this video has been terminated.");
    reveal_strlit("This video has been removed by the uploader");
    reveal_strlit("This video has been removed for violating YouTube's policy on nudity or sexual content");
    reveal_strlit("This video is private");
    reveal_strlit("This video has been removed for violating YouTube's Terms of Service.");
    reveal_strlit("This video is no longer available due to a privacy claim by a third party");
    reveal_strlit("This video requires payment to watch.");
    reveal_strlit("This video may be inappropriate for some users.");
    reveal_strlit("This video is not available in your country");
    reveal_strlit("This video is no longer available because the uploader has closed their YouTube account.");
    let p = content_prefix();
    let q = content_suffix();
    let r = p + who + q;
    assert(r[11] == p[11]);
    lemma_differ_at(r, "This video is unavailable"@, 11);
    lemma_differ_at(r, "This video is no longer available because the YouTube account associated with this video has been terminated."@, 11);
    lemma_differ_at(r, "This video has been removed by the uploader"@, 11);
    lemma_differ_at(r, "This video has been removed for violating YouTube's policy on nudity or sexual content"@, 11);
    lemma_differ_at(r, "This video is private"@, 11);
    lemma_differ_at(r, "This video has been removed for violating YouTube's Terms of Service."@, 11);
    lemma_differ_at(r, "This video is no longer available due to a privacy claim by a third party"@, 11);
    lemma_differ_at(r, "This video requires payment to watch."@, 11);
    lemma_differ_at(r, "This video may be inappropriate for some users."@, 11);
    lemma_differ_at(r, "This video is not available in your country"@, 11);
    lemma_differ_at(r, "This video is no longer available because the uploader has closed their YouTube account."@, 11);
    assert(fixed_reason(r) is None);
    lemma_not_starts_with(r, claim_prefix(), 11);
    assert(r.subrange(0, p.len() as int) =~= p);
    let rest = r.subrange(p.len() as int, r.len() as int);
    assert(rest =~= who + q);
    assert(rest.subrange(rest.len() - q.len(), rest.len() as int) =~= q);
    assert(rest.subrange(0, rest.len() - q.len()) =~= who);
}

} // verus!
