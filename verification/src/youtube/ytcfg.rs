//! The configuration that a YouTube page carries.

use vstd::prelude::*;

verus! {

/// The configuration of a page.
#[derive(Clone)]
pub struct YtCfg {
    /// The path of the player script.
    pub player_js_url: String,
    /// The key that the innertube API asks for.
    pub innertube_api_key: String,
}

} // verus!
