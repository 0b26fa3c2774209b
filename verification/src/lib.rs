//! A library for getting YouTube metadata.
//!
//! The crate holds the data model of the pages YouTube serves and every rule
//! that reads it: identifiers, counters, lengths, dates, the signature cipher
//! and the classification of errors. Fetching pages is left to the caller.

pub mod text;
pub mod utils;
pub mod error;
pub mod id;
pub mod channel;
pub mod video;
pub mod playlist;
pub mod thumbnail;
pub mod youtube;

pub mod player;
pub mod stream;

pub use error::Error;
pub use playlist::Playlist;
pub use stream::Stream;
pub use thumbnail::Thumbnail;
pub use video::Video;

use vstd::prelude::*;

verus! {

/// The Result type used by this library.
pub type Result<T> = std::result::Result<T, error::Error>;

} // verus!
