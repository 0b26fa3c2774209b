//! Items that YouTube shows beside a video as related to it.

use vstd::prelude::*;
use crate::text::{
    chars_of, parse_u64, parse_u64_exec, remove_char, remove_char_exec, split_once,
    split_once_exec,
};
use crate::youtube::next::{
    CompactMovieRenderer, CompactPlaylistRenderer, CompactRadioRenderer, CompactVideoRenderer,
};
use crate::youtube::{clock_value, length_readable, parse_length, Badge, Text};
use crate::text::split_on;

verus! {

/// The text that holds the number of views: the part of a simple text before
/// its first space, or the first run.
pub open spec fn views_text(t: Text) -> Option<Seq<char>> {
    match t {
        Text::SimpleText(s) => match split_once(s.simple_text@, " "@) {
            Some(p) => Some(p.0),
            None => None,
        },
        Text::Runs(r) => if r.runs@.len() > 0 {
            Some(r.runs@[0].text@)
        } else {
            None
        },
    }
}

/// The number of views that a view count text states, commas aside.
pub open spec fn spec_views(t: Text) -> u64 {
    parse_u64(remove_char(views_text(t).unwrap(), ',')).unwrap()
}

/// A view count text can be read: it has its number part, and that part is a
/// number once commas are removed.
pub open spec fn views_readable(t: Text) -> bool {
    views_text(t) is Some && parse_u64(remove_char(views_text(t).unwrap(), ',')) is Some
}

/// A related video.
#[derive(Clone)]
pub struct Video(CompactVideoRenderer);

impl Video {
    /// How YouTube draws the video.
    pub closed spec fn renderer(self) -> CompactVideoRenderer {
        self.0
    }

    /// The related video that YouTube draws with `renderer`.
    pub fn new(renderer: CompactVideoRenderer) -> (v: Video)
        ensures
            v.renderer() == renderer,
    {
        Video(renderer)
    }

    /// The [`Id`](super::Id) of this video.
    pub fn id(&self) -> (id: super::Id)
        ensures
            id == self.renderer().video_id,
    {
        self.0.video_id
    }

    /// The title of this video.
    pub fn title(&self) -> (t: &str)
        ensures
            t@ == self.renderer().title.simple_text@,
    {
        self.0.title.simple_text.as_str()
    }

    /// The [`Thumbnails`](crate::Thumbnail) of this video.
    pub fn thumbnails(&self) -> (t: &Vec<crate::Thumbnail>)
        ensures
            *t == self.renderer().thumbnail.thumbnails,
    {
        &self.0.thumbnail.thumbnails
    }

    /// The number of views can be read wherever it is shown.
    pub open spec fn views_readable(self) -> bool {
        self.renderer().view_count_text matches Some(t) ==> views_readable(t)
    }

    /// The amount of views this video has, where shown.
    pub fn views(&self) -> (n: Option<u64>)
        requires
            self.views_readable(),
        ensures
            match self.renderer().view_count_text {
                Some(t) => n == Some(spec_views(t)),
                None => n is None,
            },
    {
        let t = match &self.0.view_count_text {
            Some(t) => t,
            None => {
                return None;
            },
        };
        let s: &str = match t {
            Text::SimpleText(simple) => {
                let (count, _) = split_once_exec(simple.simple_text.as_str(), " ").unwrap();
                count
            },
            Text::Runs(runs) => runs.runs[0].text.as_str(),
        };
        let chars = chars_of(s);
        let fixed = remove_char_exec(chars.as_slice(), ',');
        Some(parse_u64_exec(fixed.as_slice()).unwrap())
    }

    /// The length can be read wherever it is shown.
    pub open spec fn length_readable(self) -> bool {
        self.renderer().length_text matches Some(t) ==> length_readable(t.simple_text@)
    }

    /// The length of this video in seconds; [`None`] if this video is a
    /// livestream.
    pub fn length(&self) -> (secs: Option<u64>)
        requires
            self.length_readable(),
        ensures
            match self.renderer().length_text {
                Some(t) => secs == Some(clock_value(split_on(t.simple_text@, ':')) as u64),
                None => secs is None,
            },
    {
        match &self.0.length_text {
            Some(t) => Some(parse_length(t.simple_text.as_str())),
            None => None,
        }
    }

    /// The channel is named.
    pub open spec fn has_channel(self) -> bool {
        self.renderer().short_byline_text.runs@.len() > 0
    }

    /// The [`Channel`] that uploaded this video.
    pub fn channel(&self) -> (c: Channel<'_>)
        requires
            self.has_channel(),
        ensures
            c.known_id() == Some(self.renderer().short_byline_text.runs@[0].navigation_endpoint.browse_endpoint.browse_id),
            c.shown_name() == self.renderer().short_byline_text.runs@[0].text@,
            c.shown_badges() == self.renderer().owner_badges@,
    {
        let run = &self.0.short_byline_text.runs[0];
        Channel {
            id: Some(run.navigation_endpoint.browse_endpoint.browse_id),
            name: run.text.as_str(),
            badges: &self.0.owner_badges,
        }
    }
}

/// A related playlist.
#[derive(Clone)]
pub struct Playlist(CompactPlaylistRenderer);

impl Playlist {
    /// How YouTube draws the playlist.
    pub closed spec fn renderer(self) -> CompactPlaylistRenderer {
        self.0
    }

    /// The related playlist that YouTube draws with `renderer`.
    pub fn new(renderer: CompactPlaylistRenderer) -> (p: Playlist)
        ensures
            p.renderer() == renderer,
    {
        Playlist(renderer)
    }

    /// The [`Id`](crate::playlist::Id) of this playlist.
    pub fn id(&self) -> (id: crate::playlist::Id)
        ensures
            id@ == self.renderer().playlist_id@,
    {
        crate::playlist::Id::from_text(self.0.playlist_id.clone())
    }

    /// The title of this playlist.
    pub fn title(&self) -> (t: &str)
        ensures
            t@ == self.renderer().title.simple_text@,
    {
        self.0.title.simple_text.as_str()
    }

    /// The [`Thumbnails`](crate::Thumbnail) of this playlist.
    pub fn thumbnails(&self) -> (t: &Vec<crate::Thumbnail>)
        ensures
            *t == self.renderer().thumbnail.thumbnails,
    {
        &self.0.thumbnail.thumbnails
    }

    /// The channel is named.
    pub open spec fn has_channel(self) -> bool {
        self.renderer().short_byline_text.runs@.len() > 0
    }

    /// The [`Channel`] that made this playlist; its identifier is known
    /// where its name links to it.
    pub fn channel(&self) -> (c: Channel<'_>)
        requires
            self.has_channel(),
        ensures
            c.known_id() == (match self.renderer().short_byline_text.runs@[0].navigation_endpoint {
                Some(e) => Some(e.browse_endpoint.browse_id),
                None => None,
            }),
            c.shown_name() == self.renderer().short_byline_text.runs@[0].text@,
            c.shown_badges() == self.renderer().owner_badges@,
    {
        let run = &self.0.short_byline_text.runs[0];
        let id = match &run.navigation_endpoint {
            Some(e) => Some(e.browse_endpoint.browse_id),
            None => None,
        };
        Channel { id, name: run.text.as_str(), badges: &self.0.owner_badges }
    }
}

/// A related radio.
#[derive(Clone)]
pub struct Radio(CompactRadioRenderer);

impl Radio {
    /// How YouTube draws the radio.
    pub closed spec fn renderer(self) -> CompactRadioRenderer {
        self.0
    }

    /// The related radio that YouTube draws with `renderer`.
    pub fn new(renderer: CompactRadioRenderer) -> (r: Radio)
        ensures
            r.renderer() == renderer,
    {
        Radio(renderer)
    }

    /// The [`Id`](crate::playlist::Id) of this radio.
    pub fn id(&self) -> (id: crate::playlist::Id)
        ensures
            id@ == self.renderer().playlist_id@,
    {
        crate::playlist::Id::from_text(self.0.playlist_id.clone())
    }

    /// The title of this radio.
    pub fn title(&self) -> (t: &str)
        ensures
            t@ == self.renderer().title.simple_text@,
    {
        self.0.title.simple_text.as_str()
    }

    /// The [`Thumbnails`](crate::Thumbnail) of this radio.
    pub fn thumbnails(&self) -> (t: &Vec<crate::Thumbnail>)
        ensures
            *t == self.renderer().thumbnail.thumbnails,
    {
        &self.0.thumbnail.thumbnails
    }
}

/// A related movie.
#[derive(Clone)]
pub struct Movie(CompactMovieRenderer);

impl Movie {
    /// How YouTube draws the movie.
    pub closed spec fn renderer(self) -> CompactMovieRenderer {
        self.0
    }

    /// The related movie that YouTube draws with `renderer`.
    pub fn new(renderer: CompactMovieRenderer) -> (m: Movie)
        ensures
            m.renderer() == renderer,
    {
        Movie(renderer)
    }

    /// The [`Id`](super::Id) of this movie.
    pub fn id(&self) -> (id: super::Id)
        ensures
            id == self.renderer().video_id,
    {
        self.0.video_id
    }

    /// The title of this movie.
    pub fn title(&self) -> (t: &str)
        ensures
            t@ == self.renderer().title.simple_text@,
    {
        self.0.title.simple_text.as_str()
    }

    /// The [`Thumbnails`](crate::Thumbnail) of this movie.
    pub fn thumbnails(&self) -> (t: &Vec<crate::Thumbnail>)
        ensures
            *t == self.renderer().thumbnail.thumbnails,
    {
        &self.0.thumbnail.thumbnails
    }

    /// The length of this movie in seconds.
    pub fn length(&self) -> (secs: u64)
        requires
            length_readable(self.renderer().length_text.simple_text@),
        ensures
            secs == clock_value(split_on(self.renderer().length_text.simple_text@, ':')),
    {
        parse_length(self.0.length_text.simple_text.as_str())
    }
}

/// The uploader of a [`Related`](super::Related) item.
#[derive(Clone)]
pub struct Channel<'a> {
    id: Option<crate::channel::Id>,
    name: &'a str,
    badges: &'a Vec<Badge>,
}

impl<'a> Channel<'a> {
    /// The identifier of this channel, where known.
    pub closed spec fn known_id(self) -> Option<crate::channel::Id> {
        self.id
    }

    /// The name of this channel.
    pub closed spec fn shown_name(self) -> Seq<char> {
        self.name@
    }

    /// The badges of this channel.
    pub closed spec fn shown_badges(self) -> Seq<Badge> {
        self.badges@
    }

    /// The [`Id`](crate::channel::Id) of this channel, where known.
    pub fn id(&self) -> (id: Option<crate::channel::Id>)
        ensures
            id == self.known_id(),
    {
        self.id
    }

    /// The name of this channel.
    pub fn name(&self) -> (n: &str)
        ensures
            n@ == self.shown_name(),
    {
        self.name
    }

    /// The badges that this channel has, in order.
    pub fn badges(&self) -> (b: &Vec<Badge>)
        ensures
            b@ == self.shown_badges(),
    {
        self.badges
    }
}


impl PartialEq for Video {
    fn eq(&self, other: &Self) -> (b: bool) {
        self.id() == other.id()
    }
}

impl vstd::std_specs::cmp::PartialEqSpecImpl for Video {
    open spec fn obeys_eq_spec() -> bool {
        true
    }

    open spec fn eq_spec(&self, other: &Video) -> bool {
        self.renderer().video_id@ == other.renderer().video_id@
    }
}

impl Eq for Video {
}

impl PartialEq for Playlist {
    fn eq(&self, other: &Self) -> (b: bool) {
        self.id() == other.id()
    }
}

impl vstd::std_specs::cmp::PartialEqSpecImpl for Playlist {
    open spec fn obeys_eq_spec() -> bool {
        true
    }

    open spec fn eq_spec(&self, other: &Playlist) -> bool {
        self.renderer().playlist_id@ == other.renderer().playlist_id@
    }
}

impl Eq for Playlist {
}

impl PartialEq for Radio {
    fn eq(&self, other: &Self) -> (b: bool) {
        self.id() == other.id()
    }
}

impl vstd::std_specs::cmp::PartialEqSpecImpl for Radio {
    open spec fn obeys_eq_spec() -> bool {
        true
    }

    open spec fn eq_spec(&self, other: &Radio) -> bool {
        self.renderer().playlist_id@ == other.renderer().playlist_id@
    }
}

impl Eq for Radio {
}

impl PartialEq for Movie {
    fn eq(&self, other: &Self) -> (b: bool) {
        self.id() == other.id()
    }
}

impl vstd::std_specs::cmp::PartialEqSpecImpl for Movie {
    open spec fn obeys_eq_spec() -> bool {
        true
    }

    open spec fn eq_spec(&self, other: &Movie) -> bool {
        self.renderer().video_id@ == other.renderer().video_id@
    }
}

impl Eq for Movie {
}

impl<'a> PartialEq for Channel<'a> {
    fn eq(&self, other: &Self) -> (b: bool) {
        match (self.id, other.id) {
            (Some(a), Some(b)) => a == b,
            (None, None) => true,
            _ => false,
        }
    }
}

impl<'a> vstd::std_specs::cmp::PartialEqSpecImpl for Channel<'a> {
    open spec fn obeys_eq_spec() -> bool {
        true
    }

    open spec fn eq_spec(&self, other: &Channel<'a>) -> bool {
        match (self.known_id(), other.known_id()) {
            (Some(a), Some(b)) => a@ == b@,
            (None, None) => true,
            _ => false,
        }
    }
}

impl<'a> Eq for Channel<'a> {
}

} // verus!
