//! Unsplash: one random photo.

use vstd::prelude::*;
use vstd::string::*;

use crate::text::{contains_seq, occurs_at};

use crate::sources::{
    lemma_orientation_part, orientation_suffix,
    append_orientation, default_query, is_default_query, orientation_value, ApiRequest,
    FetchError,
};

verus! {

/// The Unsplash service.
#[derive(Clone, Copy, Debug, PartialEq, Eq)]
pub struct Unsplash;

/// The image URLs of an Unsplash photo.
#[derive(Clone, Debug, PartialEq, Eq)]
pub struct UnsplashUrls {
    pub full: String,
}

/// Unsplash's random-photo reply.
#[derive(Clone, Debug, PartialEq, Eq)]
pub struct UnsplashResponse {
    pub urls: UnsplashUrls,
}

/// The random-photo URL: the client id, then the query unless it is empty or
/// `pixel`, the colour unless empty, and the orientation unless empty.
pub open spec fn unsplash_url(
    query: Seq<char>,
    color: Seq<char>,
    key: Seq<char>,
    orientation: Seq<char>,
) -> Seq<char> {
    let base = "https://api.unsplash.com/photos/random?client_id="@ + key;
    let with_query = if !is_default_query(query) {
        base + "&query="@ + query
    } else {
        base
    };
    let with_color = if color.len() != 0 {
        with_query + "&color="@ + color
    } else {
        with_query
    };
    if orientation.len() != 0 {
        with_color + "&orientation="@ + orientation_value(orientation)
    } else {
        with_color
    }
}

/// What a request to Unsplash is: refused without a key; otherwise the
/// random-photo URL and no `Authorization` header.
pub open spec fn unsplash_request_outcome(
    query: Seq<char>,
    color: Seq<char>,
    key: Seq<char>,
    orientation: Seq<char>,
    r: Result<ApiRequest, FetchError>,
) -> bool {
    &&& key.len() == 0 ==> r == Err::<ApiRequest, FetchError>(FetchError::UnsplashKeyMissing)
    &&& key.len() != 0 ==> (r matches Ok(req) && req.url@ == unsplash_url(
        query,
        color,
        key,
        orientation,
    ) && req.authorization is None)
}

impl Unsplash {
    /// The request for a random photo; refused without an API key. No
    /// `Authorization` header is sent: the key travels in the URL.
    pub fn request(&self, query: &str, color: &str, key: &str, orientation: &str) -> (r: Result<
        ApiRequest,
        FetchError,
    >)
        ensures
            unsplash_request_outcome(query@, color@, key@, orientation@, r),
    {
        if key.is_empty() {
            return Err(FetchError::UnsplashKeyMissing);
        }
        let mut url = "https://api.unsplash.com/photos/random?client_id=".to_owned();
        url.append(key);
        if !default_query(query) {
            url.append("&query=");
            url.append(query);
        }
        if !color.is_empty() {
            url.append("&color=");
            url.append(color);
        }
        append_orientation(&mut url, orientation);
        Ok(ApiRequest { url, authorization: None })
    }

    /// The full-size image URL of the photo.
    pub fn select(&self, reply: &UnsplashResponse) -> (r: String)
        ensures
            r@ == reply.urls.full@,
    {
        reply.urls.full.clone()
    }
}

// ---------------------------------------------------------------------------
// Laws
// ---------------------------------------------------------------------------

/// The Unsplash URL part by part: the client id, then `&query=` and the
/// query unless the query is empty or `pixel`, then `&color=` and the colour
/// whenever a colour is given (whatever the query), then the orientation
/// part.
pub proof fn lemma_unsplash_url_parts(
    query: Seq<char>,
    color: Seq<char>,
    key: Seq<char>,
    orientation: Seq<char>,
)
    ensures
        unsplash_url(query, color, key, orientation) == "https://api.unsplash.com/photos/random?client_id="@
            + key + (if query.len() == 0 || query == "pixel"@ {
            Seq::empty()
        } else {
            "&query="@ + query
        }) + (if color.len() == 0 {
            Seq::empty()
        } else {
            "&color="@ + color
        }) + orientation_suffix(orientation),
{
    let base = "https://api.unsplash.com/photos/random?client_id="@ + key;
    let query_part = if query.len() == 0 || query == "pixel"@ {
        Seq::<char>::empty()
    } else {
        "&query="@ + query
    };
    let color_part = if color.len() == 0 {
        Seq::<char>::empty()
    } else {
        "&color="@ + color
    };
    let with_query = if !is_default_query(query) {
        base + "&query="@ + query
    } else {
        base
    };
    assert(with_query =~= base + query_part);
    let with_color = if color.len() != 0 {
        with_query + "&color="@ + color
    } else {
        with_query
    };
    assert(with_color =~= base + query_part + color_part);
    lemma_orientation_part(with_color, orientation);
}

/// Whenever a colour is given, the Unsplash URL carries `&color=` followed
/// by it, whatever the query.
pub proof fn lemma_unsplash_sends_color(
    query: Seq<char>,
    color: Seq<char>,
    key: Seq<char>,
    orientation: Seq<char>,
)
    requires
        color.len() != 0,
    ensures
        contains_seq(unsplash_url(query, color, key, orientation), "&color="@ + color),
{
    lemma_unsplash_url_parts(query, color, key, orientation);
    let head = "https://api.unsplash.com/photos/random?client_id="@ + key + (if query.len() == 0
        || query == "pixel"@ {
        Seq::empty()
    } else {
        "&query="@ + query
    });
    let part = "&color="@ + color;
    let url = unsplash_url(query, color, key, orientation);
    assert(url =~= head + part + orientation_suffix(orientation));
    assert(url.subrange(head.len() as int, (head.len() + part.len()) as int) =~= part);
    assert(occurs_at(url, part, head.len() as int));
}

/// A request to Unsplash is refused exactly when the key is empty; when it
/// is made, no `Authorization` header is sent.
pub proof fn lemma_unsplash_request_refusals(
    query: Seq<char>,
    color: Seq<char>,
    key: Seq<char>,
    orientation: Seq<char>,
    r: Result<ApiRequest, FetchError>,
)
    requires
        unsplash_request_outcome(query, color, key, orientation, r),
    ensures
        r is Err <==> key.len() == 0,
        r matches Ok(req) ==> req.authorization is None,
{
}

} // verus!
