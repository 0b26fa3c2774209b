//! The documents that the browse endpoint serves.

use vstd::prelude::*;
use super::Text;
use crate::text::str_eq;

pub mod channel;
pub mod continuation;
pub mod playlist;

verus! {

/// A browse document: the page asked for, or the alert YouTube shows instead.
pub enum Result<T> {
    /// YouTube shows an alert in place of the page.
    Error {
        /// The alert.
        alerts: (Alert,),
    },
    /// The page.
    Page(T),
}

/// The text that an alert shows.
pub open spec fn alert_text(a: AlertRenderer) -> Seq<char> {
    match a.text {
        Text::SimpleText(simple_text) => simple_text.simple_text@,
        Text::Runs(runs) => runs.runs@[0].text@,
    }
}

/// The error that an alert with the text `text` reports: the item asked
/// for does not exist (YouTube says so of missing, private and deleted
/// playlists alike), the playlist cannot be viewed, or else the alert itself.
pub open spec fn spec_alert_error(text: Seq<char>) -> crate::error::YoutubeView {
    if text == "The playlist does not exist."@ || text == "This channel does not exist."@ {
        crate::error::YoutubeView::NotFound
    } else if text == "This playlist type is unviewable."@ {
        crate::error::YoutubeView::Unviewable
    } else {
        crate::error::YoutubeView::Alert(text)
    }
}

/// The alert can be read: it is an error alert, and a text made of runs has
/// at least one run.
pub open spec fn alert_readable(a: AlertRenderer) -> bool {
    &&& a.type_@ == "ERROR"@
    &&& a.text matches Text::Runs(runs) ==> runs.runs@.len() > 0
}

impl<T> Result<T> {
    /// The page, or the error that YouTube's alert reports.
    pub fn into_std(self) -> (r: crate::Result<T>)
        requires
            self matches Result::Error { alerts } ==> alert_readable(alerts.0.alert_renderer),
        ensures
            self matches Result::Page(page) ==> r matches Ok(p) && p == page,
            self matches Result::Error { alerts } ==> r matches Err(e) && e@
                == crate::error::ErrorView::Youtube(
                spec_alert_error(alert_text(alerts.0.alert_renderer)),
            ),
    {
        match self {
            Result::Error { alerts } => {
                let (alert,) = alerts;
                let text = alert.alert_renderer.text();
                let error = if str_eq(text.as_str(), "The playlist does not exist.") || str_eq(
                    text.as_str(),
                    "This channel does not exist.",
                ) {
                    crate::error::Youtube::NotFound
                } else if str_eq(text.as_str(), "This playlist type is unviewable.") {
                    crate::error::Youtube::Unviewable
                } else {
                    crate::error::Youtube::Alert(text)
                };
                Err(crate::error::Error::Youtube(error))
            },
            Result::Page(page) => Ok(page),
        }
    }
}

/// An alert.
pub struct Alert {
    /// How the alert is drawn.
    pub alert_renderer: AlertRenderer,
}

/// How an alert is drawn.
pub struct AlertRenderer {
    /// The kind of the alert (`ERROR` for errors).
    pub type_: String,
    /// The text of the alert.
    pub text: Text,
}

impl AlertRenderer {
    /// The text that the alert shows.
    pub fn text(self) -> (s: String)
        requires
            self.text matches Text::Runs(runs) ==> runs.runs@.len() > 0,
        ensures
            s@ == alert_text(self),
    {
        match self.text {
            Text::SimpleText(simple_text) => simple_text.simple_text,
            Text::Runs(runs) => {
                let mut runs = runs.runs;
                runs.swap_remove(0).text
            },
        }
    }
}


/// Whether the alert can be read: it is an error alert, and a text made of
/// runs has at least one run.
pub fn alert_is_readable(a: &AlertRenderer) -> (b: bool)
    ensures
        b == alert_readable(*a),
{
    let error = str_eq(a.type_.as_str(), "ERROR");
    match &a.text {
        Text::Runs(runs) => error && runs.runs.len() > 0,
        Text::SimpleText(_) => error,
    }
}

} // verus!
