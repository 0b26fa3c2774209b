//! Thumbnails.

use vstd::prelude::*;

verus! {

/// A Thumbnail.
#[derive(Debug, Clone)]
pub struct Thumbnail {
    /// The URL where the [`Thumbnail`] can be found.
    pub url: String,
    /// The width of the [`Thumbnail`].
    pub width: u64,
    /// The height of the [`Thumbnail`].
    pub height: u64,
}

} // verus!
