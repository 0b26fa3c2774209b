//! The configuration that the TV client of YouTube is served.

use vstd::prelude::*;
use crate::text::{char_views, join, lemma_join_push, split_on, split_on_exec, string_from_chars};

verus! {

/// The configuration document.
#[derive(Clone)]
pub struct TvConfig {
    /// The configurations of the web player.
    pub web_player_context_config: WebPlayerContextConfig,
}

/// The configurations of the web player, by the page that uses them.
#[derive(Clone)]
pub struct WebPlayerContextConfig {
    /// The configuration of the living-room watch page.
    pub web_player_context_config_id_living_room_watch: Config,
}

/// The configuration of a web player.
#[derive(Clone)]
pub struct Config {
    js_url: String,
    innertube_api_key: String,
}

/// The host that player scripts are served from.
pub open spec fn script_host() -> Seq<char> {
    "https://www.youtube.com"@
}

/// The address of the player script whose path, as the configuration names
/// it, is `path`: the host, then the first four `/`-separated pieces of the
/// path, then the fixed name of the web player's script, all joined by `/`.
pub open spec fn spec_js_url(path: Seq<char>) -> Seq<char> {
    let pieces = split_on(path, '/');
    let kept = if pieces.len() < 4 {
        pieces
    } else {
        pieces.take(4)
    };
    join(
        seq![script_host()] + kept + seq!["player_ias.vflset"@, "en_US"@, "base.js"@],
        "/"@,
    )
}

impl View for Config {
    type V = (Seq<char>, Seq<char>);

    /// The script path and the API key.
    closed spec fn view(&self) -> (Seq<char>, Seq<char>) {
        (self.js_url@, self.innertube_api_key@)
    }
}

impl Config {
    /// A configuration naming the player script at `js_url` and the API key
    /// `innertube_api_key`.
    pub fn new(js_url: String, innertube_api_key: String) -> (c: Config)
        ensures
            c@ == (js_url@, innertube_api_key@),
    {
        Config { js_url, innertube_api_key }
    }

    /// The key that the innertube API asks for.
    pub fn innertube_api_key(&self) -> (k: &str)
        ensures
            k@ == self@.1,
    {
        self.innertube_api_key.as_str()
    }

    /// The address of the web player's script.
    pub fn js_url(&self) -> (url: String)
        ensures
            url@ == spec_js_url(self@.0),
    {
        let path = crate::text::chars_of(self.js_url.as_str());
        let pieces = split_on_exec(path.as_slice(), '/');
        let ghost all = char_views(pieces@);
        let n: usize = if pieces.len() < 4 {
            pieces.len()
        } else {
            4
        };
        let mut url = "https://www.youtube.com".to_owned();
        let ghost mut acc: Seq<Seq<char>> = seq![script_host()];
        proof {
            reveal_strlit("https://www.youtube.com");
            assert(join(acc, "/"@) == script_host());
        }
        let mut i: usize = 0;
        while i < n
            invariant
                n <= pieces@.len(),
                all == char_views(pieces@),
                n == (if all.len() < 4 { all.len() } else { 4 }),
                i <= n,
                acc == seq![script_host()] + all.take(i as int),
                url@ == join(acc, "/"@),
            decreases n - i,
        {
            let piece = string_from_chars(pieces[i].as_slice());
            url.append("/");
            url.append(piece.as_str());
            proof {
                reveal_strlit("/");
                lemma_join_push(acc, "/"@, all[i as int]);
                acc = acc.push(all[i as int]);
                assert(acc =~= seq![script_host()] + all.take(i + 1));
            }
            i += 1;
        }
        url.append("/player_ias.vflset");
        url.append("/en_US");
        url.append("/base.js");
        proof {
            reveal_strlit("/player_ias.vflset");
            reveal_strlit("/en_US");
            reveal_strlit("/base.js");
            reveal_strlit("player_ias.vflset");
            reveal_strlit("en_US");
            reveal_strlit("base.js");
            reveal_strlit("/");
            let a1 = acc.push("player_ias.vflset"@);
            let a2 = a1.push("en_US"@);
            let a3 = a2.push("base.js"@);
            lemma_join_push(acc, "/"@, "player_ias.vflset"@);
            lemma_join_push(a1, "/"@, "en_US"@);
            lemma_join_push(a2, "/"@, "base.js"@);
            let kept = if all.len() < 4 { all } else { all.take(4) };
            assert(all.take(n as int) =~= kept);
            assert(a3 =~= seq![script_host()] + kept + seq![
                "player_ias.vflset"@,
                "en_US"@,
                "base.js"@,
            ]);
            assert("/player_ias.vflset"@ =~= "/"@ + "player_ias.vflset"@);
            assert("/en_US"@ =~= "/"@ + "en_US"@);
            assert("/base.js"@ =~= "/"@ + "base.js"@);
            assert(url@ =~= join(a3, "/"@));
        }
        url
    }
}

} // verus!
