//! Bing: the image of the day.

use vstd::prelude::*;
use vstd::string::*;

use crate::sources::{ApiRequest, FetchError, WallpaperSourceImpl};

verus! {

/// The Bing image-of-the-day service.
#[derive(Clone, Copy, Debug, PartialEq, Eq)]
pub struct Bing;

/// One image of Bing's archive reply.
#[derive(Clone, Debug, PartialEq, Eq)]
pub struct BingImage {
    pub url: String,
}

/// Bing's archive reply.
#[derive(Clone, Debug, PartialEq, Eq)]
pub struct BingResponse {
    pub images: Vec<BingImage>,
}

/// The archive URL that lists today's image.
pub open spec fn bing_archive_url() -> Seq<char> {
    "https://www.bing.com/HPImageArchive.aspx?format=js&n=1"@
}

/// What selection from Bing's reply gives: an error when the reply lists no
/// image, otherwise the full URL of the first image.
pub open spec fn bing_select_outcome(reply: BingResponse, r: Result<String, FetchError>) -> bool {
    &&& reply.images@.len() == 0 ==> r == Err::<String, FetchError>(
        FetchError::NoWallpaper(WallpaperSourceImpl::Bing(Bing)),
    )
    &&& reply.images@.len() > 0 ==> (r matches Ok(url) && url@ == "https://www.bing.com"@
        + reply.images@[0].url@)
}

impl Bing {
    /// The request for today's image; no `Authorization` header is sent.
    /// Search query, colour, key and orientation play no part.
    pub fn request(&self) -> (r: ApiRequest)
        ensures
            r.url@ == bing_archive_url(),
            r.authorization is None,
    {
        ApiRequest {
            url: "https://www.bing.com/HPImageArchive.aspx?format=js&n=1".to_owned(),
            authorization: None,
        }
    }

    /// The full URL of the first image of the reply (its relative URL put
    /// after `https://www.bing.com`); an error when the reply lists none.
    pub fn select(&self, reply: &BingResponse) -> (r: Result<String, FetchError>)
        ensures
            bing_select_outcome(*reply, r),
    {
        if reply.images.len() == 0 {
            return Err(FetchError::NoWallpaper(WallpaperSourceImpl::Bing(Bing)));
        }
        let mut url = "https://www.bing.com".to_owned();
        url.append(reply.images[0].url.as_str());
        Ok(url)
    }
}

// ---------------------------------------------------------------------------
// Laws
// ---------------------------------------------------------------------------

/// Selection from Bing's reply fails exactly when no image is listed, and
/// otherwise gives `https://www.bing.com` followed by the first image's
/// relative URL.
pub proof fn lemma_bing_select(reply: BingResponse, r: Result<String, FetchError>)
    requires
        bing_select_outcome(reply, r),
    ensures
        r is Err <==> reply.images@.len() == 0,
        r matches Ok(url) ==> url@ == "https://www.bing.com"@ + reply.images@[0].url@,
{
}

} // verus!
