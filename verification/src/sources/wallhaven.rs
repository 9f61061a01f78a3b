//! Wallhaven: a random search over its wallpapers.

use vstd::prelude::*;
use vstd::string::*;

use crate::random::{is_alphanumeric_char, pick_random, random_alphanumeric};
use crate::sources::{ApiRequest, FetchError, WallpaperSourceImpl};
use crate::text::{ends_with, same_text, string_from_chars};

verus! {

/// The Wallhaven service.
#[derive(Clone, Copy, Debug, PartialEq, Eq)]
pub struct Wallhaven;

/// One wallpaper of a Wallhaven search reply.
#[derive(Clone, Debug, PartialEq, Eq)]
pub struct WallhavenWallpaper {
    pub path: String,
}

/// A Wallhaven search reply.
#[derive(Clone, Debug, PartialEq, Eq)]
pub struct WallhavenResponse {
    pub data: Vec<WallhavenWallpaper>,
}

/// A random-search seed: six ASCII letters or digits.
pub open spec fn is_seed(seed: Seq<char>) -> bool {
    seed.len() == 6 && forall|i: int| 0 <= i < 6 ==> is_alphanumeric_char(#[trigger] seed[i])
}

/// The aspect ratios searched for: tall ones for `portrait`, wide ones for
/// anything else.
pub open spec fn wallhaven_ratios(orientation: Seq<char>) -> Seq<char> {
    if orientation == "portrait"@ {
        "9x16,10x16"@
    } else {
        "16x9,16x10,21x9,32x9,3:2"@
    }
}

/// The search URL: query, colours, random sorting with `seed`, the ratios
/// for the orientation, and the API key when one is given.
pub open spec fn wallhaven_url(
    query: Seq<char>,
    color: Seq<char>,
    key: Seq<char>,
    orientation: Seq<char>,
    seed: Seq<char>,
) -> Seq<char> {
    let base = "https://wallhaven.cc/api/v1/search?q="@ + query + "&colors="@ + color
        + "&sorting=random&seed="@ + seed + "&ratios="@ + wallhaven_ratios(orientation);
    if key.len() == 0 {
        base
    } else {
        base + "&apikey="@ + key
    }
}

/// What a request to Wallhaven is: a search URL with some seed, and no
/// `Authorization` header.
pub open spec fn wallhaven_request_outcome(
    query: Seq<char>,
    color: Seq<char>,
    key: Seq<char>,
    orientation: Seq<char>,
    r: ApiRequest,
) -> bool {
    &&& exists|seed: Seq<char>|
        is_seed(seed) && r.url@ == #[trigger] wallhaven_url(query, color, key, orientation, seed)
    &&& r.authorization is None
}

/// What selection from a Wallhaven reply gives: an error when the reply
/// lists no wallpaper, otherwise the path of one of the listed wallpapers.
pub open spec fn wallhaven_select_outcome(reply: WallhavenResponse, r: Result<String, FetchError>) -> bool {
    &&& reply.data@.len() == 0 ==> r == Err::<String, FetchError>(
        FetchError::NoWallpaper(WallpaperSourceImpl::Wallhaven(Wallhaven)),
    )
    &&& reply.data@.len() > 0 ==> (r matches Ok(path) && exists|i: int|
        0 <= i < reply.data@.len() && path@ == (#[trigger] reply.data@[i]).path@)
}

/// A fresh random-search seed.
pub fn generate_seed() -> (seed: String)
    ensures
        is_seed(seed@),
{
    let mut chars: Vec<char> = Vec::new();
    let mut k: usize = 0;
    while k < 6
        invariant
            k <= 6,
            chars@.len() == k,
            forall|i: int| 0 <= i < k ==> is_alphanumeric_char(#[trigger] chars@[i]),
        decreases 6 - k,
    {
        let b: u8 = random_alphanumeric();
        let c: char = b as char;
        assert(is_alphanumeric_char(c));
        chars.push(c);
        k = k + 1;
    }
    string_from_chars(chars.as_slice())
}

impl Wallhaven {
    /// The search URL for the given parameters and seed.
    pub fn api_url(&self, query: &str, color: &str, key: &str, orientation: &str, seed: &str) -> (r:
        String)
        ensures
            r@ == wallhaven_url(query@, color@, key@, orientation@, seed@),
    {
        let mut url = "https://wallhaven.cc/api/v1/search?q=".to_owned();
        url.append(query);
        url.append("&colors=");
        url.append(color);
        url.append("&sorting=random&seed=");
        url.append(seed);
        url.append("&ratios=");
        if same_text(orientation, "portrait") {
            url.append("9x16,10x16");
        } else {
            url.append("16x9,16x10,21x9,32x9,3:2");
        }
        if !key.is_empty() {
            url.append("&apikey=");
            url.append(key);
        }
        url
    }

    /// The request for a random search, with a freshly drawn seed; no
    /// `Authorization` header is sent.
    pub fn request(&self, query: &str, color: &str, key: &str, orientation: &str) -> (r:
        ApiRequest)
        ensures
            wallhaven_request_outcome(query@, color@, key@, orientation@, r),
    {
        let seed = generate_seed();
        let url = self.api_url(query, color, key, orientation, seed.as_str());
        assert(is_seed(seed@) && url@ == wallhaven_url(query@, color@, key@, orientation@, seed@));
        ApiRequest { url, authorization: None }
    }

    /// The path of one wallpaper of the reply, drawn at random; an error when
    /// the reply lists none.
    pub fn select(&self, reply: &WallhavenResponse) -> (r: Result<String, FetchError>)
        ensures
            wallhaven_select_outcome(*reply, r),
    {
        if reply.data.len() == 0 {
            return Err(FetchError::NoWallpaper(WallpaperSourceImpl::Wallhaven(Wallhaven)));
        }
        match pick_random(reply.data.as_slice()) {
            Some(wallpaper) => Ok(wallpaper.path.clone()),
            None => Err(FetchError::NoWallpaper(WallpaperSourceImpl::Wallhaven(Wallhaven))),
        }
    }
}

// ---------------------------------------------------------------------------
// Laws
// ---------------------------------------------------------------------------

/// The Wallhaven search URL without a key is the query, the colours, random
/// sorting with the seed, and the ratios: `9x16,10x16` for `portrait`,
/// `16x9,16x10,21x9,32x9,3:2` for any other orientation.
pub proof fn lemma_wallhaven_url_without_key(
    query: Seq<char>,
    color: Seq<char>,
    orientation: Seq<char>,
    seed: Seq<char>,
)
    ensures
        wallhaven_url(query, color, Seq::empty(), orientation, seed)
            == "https://wallhaven.cc/api/v1/search?q="@ + query + "&colors="@ + color
            + "&sorting=random&seed="@ + seed + "&ratios="@ + (if orientation == "portrait"@ {
            "9x16,10x16"@
        } else {
            "16x9,16x10,21x9,32x9,3:2"@
        }),
{
}

/// A key, whenever one is given and whatever the query, is sent at the end
/// of the search URL: the URL is the keyless one followed by `&apikey=` and
/// the key.
pub proof fn lemma_wallhaven_sends_key(
    query: Seq<char>,
    color: Seq<char>,
    key: Seq<char>,
    orientation: Seq<char>,
    seed: Seq<char>,
)
    requires
        key.len() != 0,
    ensures
        wallhaven_url(query, color, key, orientation, seed) == wallhaven_url(
            query,
            color,
            Seq::empty(),
            orientation,
            seed,
        ) + "&apikey="@ + key,
        ends_with(wallhaven_url(query, color, key, orientation, seed), "&apikey="@ + key),
{
    let keyless = wallhaven_url(query, color, Seq::empty(), orientation, seed);
    let url = wallhaven_url(query, color, key, orientation, seed);
    assert(url =~= keyless + ("&apikey="@ + key));
    assert(url.skip(url.len() - ("&apikey="@ + key).len()) =~= "&apikey="@ + key);
}

/// A seed is six characters, each an ASCII letter or digit.
pub proof fn lemma_seed_shape(seed: Seq<char>)
    ensures
        is_seed(seed) <==> (seed.len() == 6 && forall|i: int|
            0 <= i < 6 ==> ('A' <= #[trigger] seed[i] <= 'Z') || ('a' <= seed[i] <= 'z') || ('0'
                <= seed[i] <= '9')),
{
}

/// Selection from a Wallhaven reply fails exactly when no wallpaper is
/// listed, and otherwise gives the path of a listed wallpaper.
pub proof fn lemma_wallhaven_select(reply: WallhavenResponse, r: Result<String, FetchError>)
    requires
        wallhaven_select_outcome(reply, r),
    ensures
        r is Err <==> reply.data@.len() == 0,
        r matches Ok(path) ==> exists|i: int|
            0 <= i < reply.data@.len() && path@ == (#[trigger] reply.data@[i]).path@,
{
}

} // verus!
