//! Errors produced by YouTube and this library.

use vstd::prelude::*;

verus! {

/// A failed web request, as the HTTP client described it.
#[derive(Debug, Clone, PartialEq, Eq)]
pub struct RequestError {
    /// The client's description of the failure.
    pub message: String,
}

/// Errors produced by this library.
#[derive(Debug)]
pub enum Error {
    /// An error that occurred while requesting web content.
    Request(RequestError),
    /// An error reported by YouTube.
    Youtube(Youtube),
    /// The length of a stream is neither in the player response nor in the
    /// server's reply.
    UnknownContentLength,
    /// The player's script, which deciphers the signatures of streams, could
    /// not be read.
    Player(crate::player::Error),
}

/// An error reported by YouTube.
#[derive(Debug, Clone, PartialEq, Eq)]
pub enum Youtube {
    /// The video does not exist.
    NotFound,
    /// The account that uploaded the video was terminated.
    AccountTerminated,
    /// The uploader removed the video.
    RemovedByUploader,
    /// The video was removed for nudity or sexual content.
    NudityOrSexualContentViolation,
    /// The video is private.
    Private,
    /// The video was removed for violating the Terms of Service.
    TermsOfServiceViolation,
    /// The video was removed after a privacy claim by a third party.
    PrivacyClaim,
    /// The video has to be bought.
    PurchaseRequired,
    /// The video is restricted by age.
    AgeRestricted,
    /// The video is not available in the requesting country.
    GeoRestricted,
    /// The uploader closed their account.
    AccountDeleted,
    /// The video was blocked after a copyright claim.
    CopyrightClaim {
        /// Who claimed the copyright.
        claiment: String,
    },
    /// The playlist is of a type that cannot be viewed.
    Unviewable,
    /// An alert that YouTube shows on a page, with its text.
    Alert(String),
    /// A reason that YouTube gives for not playing a video, which this
    /// library does not know, with its text.
    Other(String),
}

/// The error produced when an invalid identifier is found; `N` is the
/// length that the identifier must have (`0` where any length is accepted).
#[derive(Debug, Clone)]
pub enum Id<const N: usize> {
    /// A character outside `0..=9`, `a..=z`, `A..=Z`, `_`, `-` was found; the
    /// text is the rejected identifier.
    InvalidId(String),
    /// The identifier does not have the expected length; the number is the
    /// length that it has.
    InvalidLength(usize),
}

/// The mathematical form of an identifier error.
pub enum IdErrorView {
    /// See [`Id::InvalidId`].
    InvalidId(Seq<char>),
    /// See [`Id::InvalidLength`].
    InvalidLength(nat),
}

impl<const N: usize> View for Id<N> {
    type V = IdErrorView;

    open spec fn view(&self) -> IdErrorView {
        match self {
            Id::InvalidId(s) => IdErrorView::InvalidId(s@),
            Id::InvalidLength(n) => IdErrorView::InvalidLength(*n as nat),
        }
    }
}

/// The mathematical form of a [`Youtube`] error.
pub enum YoutubeView {
    /// See [`Youtube::NotFound`].
    NotFound,
    /// See [`Youtube::AccountTerminated`].
    AccountTerminated,
    /// See [`Youtube::RemovedByUploader`].
    RemovedByUploader,
    /// See [`Youtube::NudityOrSexualContentViolation`].
    NudityOrSexualContentViolation,
    /// See [`Youtube::Private`].
    Private,
    /// See [`Youtube::TermsOfServiceViolation`].
    TermsOfServiceViolation,
    /// See [`Youtube::PrivacyClaim`].
    PrivacyClaim,
    /// See [`Youtube::PurchaseRequired`].
    PurchaseRequired,
    /// See [`Youtube::AgeRestricted`].
    AgeRestricted,
    /// See [`Youtube::GeoRestricted`].
    GeoRestricted,
    /// See [`Youtube::AccountDeleted`].
    AccountDeleted,
    /// See [`Youtube::CopyrightClaim`].
    CopyrightClaim { claiment: Seq<char> },
    /// See [`Youtube::Unviewable`].
    Unviewable,
    /// See [`Youtube::Alert`].
    Alert(Seq<char>),
    /// See [`Youtube::Other`].
    Other(Seq<char>),
}

impl View for Youtube {
    type V = YoutubeView;

    open spec fn view(&self) -> YoutubeView {
        match self {
            Youtube::NotFound => YoutubeView::NotFound,
            Youtube::AccountTerminated => YoutubeView::AccountTerminated,
            Youtube::RemovedByUploader => YoutubeView::RemovedByUploader,
            Youtube::NudityOrSexualContentViolation => YoutubeView::NudityOrSexualContentViolation,
            Youtube::Private => YoutubeView::Private,
            Youtube::TermsOfServiceViolation => YoutubeView::TermsOfServiceViolation,
            Youtube::PrivacyClaim => YoutubeView::PrivacyClaim,
            Youtube::PurchaseRequired => YoutubeView::PurchaseRequired,
            Youtube::AgeRestricted => YoutubeView::AgeRestricted,
            Youtube::GeoRestricted => YoutubeView::GeoRestricted,
            Youtube::AccountDeleted => YoutubeView::AccountDeleted,
            Youtube::CopyrightClaim { claiment } => YoutubeView::CopyrightClaim {
                claiment: claiment@,
            },
            Youtube::Unviewable => YoutubeView::Unviewable,
            Youtube::Alert(text) => YoutubeView::Alert(text@),
            Youtube::Other(text) => YoutubeView::Other(text@),
        }
    }
}

/// The mathematical form of an [`Error`].
pub enum ErrorView {
    /// See [`Error::Request`].
    Request(Seq<char>),
    /// See [`Error::Youtube`].
    Youtube(YoutubeView),
    /// See [`Error::UnknownContentLength`].
    UnknownContentLength,
    /// See [`Error::Player`].
    Player(crate::player::ErrorView),
}

impl View for Error {
    type V = ErrorView;

    open spec fn view(&self) -> ErrorView {
        match self {
            Error::Request(e) => ErrorView::Request(e.message@),
            Error::Youtube(y) => ErrorView::Youtube(y@),
            Error::UnknownContentLength => ErrorView::UnknownContentLength,
            Error::Player(p) => ErrorView::Player(p@),
        }
    }
}

} // verus!
