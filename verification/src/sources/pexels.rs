//! Pexels: curated photos, or a search.

use vstd::prelude::*;
use vstd::string::*;

use crate::random::pick_random;
use crate::sources::{lemma_orientation_part, orientation_suffix};
use crate::sources::{
    append_orientation, default_query, header_value_accepts, is_default_query,
    orientation_value, valid_header_value, ApiRequest, FetchError, WallpaperSourceImpl,
};

verus! {

/// The Pexels service.
#[derive(Clone, Copy, Debug, PartialEq, Eq)]
pub struct Pexels;

/// The image URLs of a Pexels photo.
#[derive(Clone, Debug, PartialEq, Eq)]
pub struct PexelsSrc {
    pub original: String,
}

/// One photo of a Pexels reply.
#[derive(Clone, Debug, PartialEq, Eq)]
pub struct PexelsPhoto {
    pub src: PexelsSrc,
}

/// A Pexels reply.
#[derive(Clone, Debug, PartialEq, Eq)]
pub struct PexelsResponse {
    pub photos: Vec<PexelsPhoto>,
}

/// The listing URL: the curated list for an empty or `pixel` query, a search
/// otherwise (then with the colour, unless empty); the orientation unless
/// empty. Fifty photos a page.
pub open spec fn pexels_url(query: Seq<char>, color: Seq<char>, orientation: Seq<char>) -> Seq<
    char,
> {
    let base = if is_default_query(query) {
        "https://api.pexels.com/v1/curated?per_page=50"@
    } else {
        "https://api.pexels.com/v1/search?query="@ + query + "&per_page=50"@
    };
    let with_color = if !(color.len() == 0 || is_default_query(query)) {
        base + "&color="@ + color
    } else {
        base
    };
    if orientation.len() != 0 {
        with_color + "&orientation="@ + orientation_value(orientation)
    } else {
        with_color
    }
}

/// What a request to Pexels is: refused without a key or with a key that
/// cannot be a header value; otherwise the listing URL with the key as the
/// `Authorization` header.
pub open spec fn pexels_request_outcome(
    query: Seq<char>,
    color: Seq<char>,
    key: Seq<char>,
    key_bytes: Seq<u8>,
    orientation: Seq<char>,
    r: Result<ApiRequest, FetchError>,
) -> bool {
    &&& key.len() == 0 ==> r == Err::<ApiRequest, FetchError>(FetchError::PexelsKeyMissing)
    &&& key.len() != 0 && !valid_header_value(key_bytes) ==> r == Err::<ApiRequest, FetchError>(
        FetchError::InvalidHeaderValue,
    )
    &&& key.len() != 0 && valid_header_value(key_bytes) ==> (r matches Ok(req) && req.url@
        == pexels_url(query, color, orientation) && req.authorization is Some
        && req.authorization->0@ == key)
}

/// What selection from a Pexels reply gives: an error when the reply lists
/// no photo, otherwise the original-size URL of one of the listed photos.
pub open spec fn pexels_select_outcome(reply: PexelsResponse, r: Result<String, FetchError>) -> bool {
    &&& reply.photos@.len() == 0 ==> r == Err::<String, FetchError>(
        FetchError::NoWallpaper(WallpaperSourceImpl::Pexels(Pexels)),
    )
    &&& reply.photos@.len() > 0 ==> (r matches Ok(url) && exists|i: int|
        0 <= i < reply.photos@.len() && url@ == (#[trigger] reply.photos@[i]).src.original@)
}

impl Pexels {
    /// The request for a page of photos, with the API key as the
    /// `Authorization` header; refused without a key, or with one that cannot
    /// be a header value.
    pub fn request(&self, query: &str, color: &str, key: &str, orientation: &str) -> (r: Result<
        ApiRequest,
        FetchError,
    >)
        ensures
            pexels_request_outcome(query@, color@, key@, key.spec_bytes(), orientation@, r),
    {
        if key.is_empty() {
            return Err(FetchError::PexelsKeyMissing);
        }
        let plain = default_query(query);
        let mut url = if plain {
            "https://api.pexels.com/v1/curated?per_page=50".to_owned()
        } else {
            let mut u = "https://api.pexels.com/v1/search?query=".to_owned();
            u.append(query);
            u.append("&per_page=50");
            u
        };
        if !(color.is_empty() || plain) {
            url.append("&color=");
            url.append(color);
        }
        append_orientation(&mut url, orientation);
        if !header_value_accepts(key) {
            return Err(FetchError::InvalidHeaderValue);
        }
        Ok(ApiRequest { url, authorization: Some(key.to_owned()) })
    }

    /// The original-size URL of one photo of the reply, drawn at random; an
    /// error when the reply lists none.
    pub fn select(&self, reply: &PexelsResponse) -> (r: Result<String, FetchError>)
        ensures
            pexels_select_outcome(*reply, r),
    {
        if reply.photos.len() == 0 {
            return Err(FetchError::NoWallpaper(WallpaperSourceImpl::Pexels(Pexels)));
        }
        match pick_random(reply.photos.as_slice()) {
            Some(photo) => Ok(photo.src.original.clone()),
            None => Err(FetchError::NoWallpaper(WallpaperSourceImpl::Pexels(Pexels))),
        }
    }
}

// ---------------------------------------------------------------------------
// Laws
// ---------------------------------------------------------------------------

/// The Pexels listing URL part by part. An empty or `pixel` query asks for
/// the curated list, whatever the colour. Any other query is a search for
/// it; the search carries `&color=` and the colour exactly when a colour is
/// given, and nothing in its place otherwise. The orientation part ends
/// the URL.
pub proof fn lemma_pexels_url_parts(query: Seq<char>, color: Seq<char>, orientation: Seq<char>)
    ensures
        (query.len() == 0 || query == "pixel"@) ==> pexels_url(query, color, orientation)
            == "https://api.pexels.com/v1/curated?per_page=50"@ + orientation_suffix(orientation),
        !(query.len() == 0 || query == "pixel"@) && color.len() == 0 ==> pexels_url(
            query,
            color,
            orientation,
        ) == "https://api.pexels.com/v1/search?query="@ + query + "&per_page=50"@
            + orientation_suffix(orientation),
        !(query.len() == 0 || query == "pixel"@) && color.len() != 0 ==> pexels_url(
            query,
            color,
            orientation,
        ) == "https://api.pexels.com/v1/search?query="@ + query + "&per_page=50"@ + "&color="@
            + color + orientation_suffix(orientation),
{
    let base = if is_default_query(query) {
        "https://api.pexels.com/v1/curated?per_page=50"@
    } else {
        "https://api.pexels.com/v1/search?query="@ + query + "&per_page=50"@
    };
    let with_color = if !(color.len() == 0 || is_default_query(query)) {
        base + "&color="@ + color
    } else {
        base
    };
    lemma_orientation_part(with_color, orientation);
}

/// A request to Pexels is refused exactly when the key is empty or cannot be
/// a header value; when it is made, the key is sent unchanged as the
/// `Authorization` header.
pub proof fn lemma_pexels_request_refusals(
    query: Seq<char>,
    color: Seq<char>,
    key: Seq<char>,
    key_bytes: Seq<u8>,
    orientation: Seq<char>,
    r: Result<ApiRequest, FetchError>,
)
    requires
        pexels_request_outcome(query, color, key, key_bytes, orientation, r),
    ensures
        r is Err <==> (key.len() == 0 || !valid_header_value(key_bytes)),
        key.len() == 0 ==> r == Err::<ApiRequest, FetchError>(FetchError::PexelsKeyMissing),
        r matches Ok(req) ==> req.authorization is Some && req.authorization->0@ == key,
{
}

/// Selection from a Pexels reply fails exactly when no photo is listed, and
/// otherwise gives the original-size URL of a listed photo.
pub proof fn lemma_pexels_select(reply: PexelsResponse, r: Result<String, FetchError>)
    requires
        pexels_select_outcome(reply, r),
    ensures
        r is Err <==> reply.photos@.len() == 0,
        r matches Ok(url) ==> exists|i: int|
            0 <= i < reply.photos@.len() && url@ == (#[trigger] reply.photos@[i]).src.original@,
{
}

} // verus!
