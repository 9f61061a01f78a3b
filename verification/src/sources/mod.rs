//! The wallpaper services: how a request to each is formed, how its reply
//! is checked, and which image URL is taken from it.
//!
//! Fetching alternates between network work and decisions. The network work
//! (sending the request, reading and decoding the reply) is done by the
//! caller; the decisions are the functions here: [`WallpaperSourceImpl::request`]
//! says what to send, [`WallpaperSourceImpl::check_status`] judges the status
//! line, and [`WallpaperSourceImpl::select`] picks the image from the decoded
//! reply.

use vstd::prelude::*;
use vstd::string::*;

use crate::text::{decimal, ends_with, push_decimal, same_text, string_from_chars};

pub mod bing;
pub mod pexels;
pub mod unsplash;
pub mod wallhaven;

use bing::{bing_archive_url, bing_select_outcome, Bing, BingResponse};
use pexels::{pexels_request_outcome, pexels_select_outcome, Pexels, PexelsResponse};
use unsplash::{unsplash_request_outcome, Unsplash, UnsplashResponse};
use wallhaven::{
    wallhaven_request_outcome, wallhaven_select_outcome, Wallhaven, WallhavenResponse,
};

verus! {

/// One of the services a wallpaper can be fetched from.
#[derive(Clone, Copy, Debug, PartialEq, Eq)]
pub enum WallpaperSourceImpl {
    Wallhaven(Wallhaven),
    Unsplash(Unsplash),
    Pexels(Pexels),
    Bing(Bing),
}

/// What to send to a service: the URL, and the value of the
/// `Authorization` header when one is sent.
#[derive(Clone, Debug, PartialEq, Eq)]
pub struct ApiRequest {
    pub url: String,
    pub authorization: Option<String>,
}

/// A service's decoded reply, in the shape that service answers with.
#[derive(Clone, Debug, PartialEq, Eq)]
pub enum ApiResponse {
    Wallhaven(WallhavenResponse),
    Unsplash(UnsplashResponse),
    Pexels(PexelsResponse),
    Bing(BingResponse),
}

/// Why no wallpaper URL came out of a fetch.
#[derive(Clone, Debug, PartialEq, Eq)]
pub enum FetchError {
    /// Unsplash was asked without an API key.
    UnsplashKeyMissing,
    /// Pexels was asked without an API key.
    PexelsKeyMissing,
    /// The API key cannot be sent as an HTTP header value.
    InvalidHeaderValue,
    /// The service answered with a status outside `200..=299`.
    Status { source: WallpaperSourceImpl, code: u16 },
    /// The service's reply listed no wallpaper.
    NoWallpaper(WallpaperSourceImpl),
    /// The request could not be completed or its reply not decoded; the text
    /// says what went wrong.
    Transport(String),
}

/// The query that stands for "no particular search": empty or `pixel`.
pub open spec fn is_default_query(query: Seq<char>) -> bool {
    query.len() == 0 || query == "pixel"@
}

/// The orientation sent to a service: `portrait` when asked for,
/// `landscape` for anything else.
pub open spec fn orientation_value(orientation: Seq<char>) -> Seq<char> {
    if orientation == "portrait"@ {
        "portrait"@
    } else {
        "landscape"@
    }
}

/// The orientation part of a URL, spelled out: nothing when no orientation
/// is given, otherwise `&orientation=portrait` for `portrait` and
/// `&orientation=landscape` for anything else.
pub open spec fn orientation_suffix(orientation: Seq<char>) -> Seq<char> {
    if orientation.len() == 0 {
        Seq::empty()
    } else if orientation == "portrait"@ {
        "&orientation="@ + "portrait"@
    } else {
        "&orientation="@ + "landscape"@
    }
}

/// Whether `query` is empty or `pixel`.
pub fn default_query(query: &str) -> (r: bool)
    ensures
        r == is_default_query(query@),
{
    query.is_empty() || same_text(query, "pixel")
}

/// Appends `&orientation=` and the orientation value to `url` when an
/// orientation is given.
pub fn append_orientation(url: &mut String, orientation: &str)
    ensures
        final(url)@ == if orientation@.len() != 0 {
            old(url)@ + "&orientation="@ + orientation_value(orientation@)
        } else {
            old(url)@
        },
{
    if !orientation.is_empty() {
        url.append("&orientation=");
        if same_text(orientation, "portrait") {
            url.append("portrait");
        } else {
            url.append("landscape");
        }
    }
}

// ---------------------------------------------------------------------------
// Status lines
// ---------------------------------------------------------------------------

/// What http's `StatusCode::canonical_reason` gives for `code`.
pub uninterp spec fn reason_phrase(code: u16) -> Option<Seq<char>>;

/// `StatusCode::from_u16(code)` followed by `canonical_reason`, from the
/// `http` crate that `reqwest` re-exports: the claim is only that the result
/// is a function of `code`, named `reason_phrase`. `from_u16` accepts exactly
/// `100..=999`, hence the precondition.
#[verifier::external_body]
fn canonical_reason(code: u16) -> (r: Option<String>)
    requires
        100 <= code <= 999,
    ensures
        match r {
            Some(s) => reason_phrase(code) == Some(s@),
            None => reason_phrase(code) is None,
        },
{
    match reqwest::StatusCode::from_u16(code) {
        Ok(status) => match status.canonical_reason() {
            Some(reason) => Some(reason.to_string()),
            None => None,
        },
        Err(_) => None,
    }
}

/// A status as a status code prints: the number, a space, and the reason
/// phrase, or `<unknown status code>` when the code has none.
pub open spec fn status_text(code: u16) -> Seq<char> {
    decimal(code as nat) + seq![' '] + match reason_phrase(code) {
        Some(p) => p,
        None => "<unknown status code>"@,
    }
}

/// The printed form of status `code` given its reason phrase, if any: the
/// number, a space, and the phrase or `<unknown status code>`.
pub fn format_status(code: u16, reason: Option<&str>) -> (r: String)
    ensures
        r@ == decimal(code as nat) + seq![' '] + match reason {
            Some(p) => p@,
            None => "<unknown status code>"@,
        },
{
    let mut digits: Vec<char> = Vec::new();
    push_decimal(&mut digits, code as u64);
    digits.push(' ');
    let mut line = string_from_chars(digits.as_slice());
    match reason {
        Some(p) => line.append(p),
        None => line.append("<unknown status code>"),
    }
    line
}

/// The printed form of status `code`.
pub fn status_line(code: u16) -> (r: String)
    requires
        100 <= code <= 999,
    ensures
        r@ == status_text(code),
{
    match canonical_reason(code) {
        Some(reason) => format_status(code, Some(reason.as_str())),
        None => format_status(code, None),
    }
}

/// A status is a success when it lies in `200..=299`.
pub open spec fn is_success(code: u16) -> bool {
    200 <= code < 300
}

// ---------------------------------------------------------------------------
// Header values
// ---------------------------------------------------------------------------

/// A byte that an HTTP header value may hold: visible ASCII, space,
/// tab, or any byte of a non-ASCII character.
pub open spec fn header_byte_ok(b: u8) -> bool {
    (b >= 32 && b != 127) || b == 9
}

/// Whether every byte of the UTF-8 text `bytes` may stand in a header value.
pub open spec fn valid_header_value(bytes: Seq<u8>) -> bool {
    forall|i: int| 0 <= i < bytes.len() ==> header_byte_ok(#[trigger] bytes[i])
}

/// Whether `HeaderValue::from_str` (from the `http` crate that `reqwest`
/// re-exports) accepts `value`: it does exactly when every byte of the text
/// passes its byte check.
#[verifier::external_body]
fn header_value_accepts(value: &str) -> (ok: bool)
    ensures
        ok == valid_header_value(value.spec_bytes()),
{
    reqwest::header::HeaderValue::from_str(value).is_ok()
}

// ---------------------------------------------------------------------------
// The services
// ---------------------------------------------------------------------------

/// The service a name selects, and whether the name was one of `unsplash`,
/// `pexels`, `bing`, `wallhaven`; any other name falls back to Wallhaven.
pub open spec fn source_named(name: Seq<char>) -> (WallpaperSourceImpl, bool) {
    if name == "unsplash"@ {
        (WallpaperSourceImpl::Unsplash(Unsplash), true)
    } else if name == "pexels"@ {
        (WallpaperSourceImpl::Pexels(Pexels), true)
    } else if name == "bing"@ {
        (WallpaperSourceImpl::Bing(Bing), true)
    } else if name == "wallhaven"@ {
        (WallpaperSourceImpl::Wallhaven(Wallhaven), true)
    } else {
        (WallpaperSourceImpl::Wallhaven(Wallhaven), false)
    }
}

impl WallpaperSourceImpl {
    /// What a request to this service is, for the given search parameters.
    pub open spec fn request_outcome(
        self,
        query: Seq<char>,
        color: Seq<char>,
        key: Seq<char>,
        key_bytes: Seq<u8>,
        orientation: Seq<char>,
        r: Result<ApiRequest, FetchError>,
    ) -> bool {
        match self {
            WallpaperSourceImpl::Wallhaven(_) => r matches Ok(req) && wallhaven_request_outcome(
                query,
                color,
                key,
                orientation,
                req,
            ),
            WallpaperSourceImpl::Unsplash(_) => unsplash_request_outcome(
                query,
                color,
                key,
                orientation,
                r,
            ),
            WallpaperSourceImpl::Pexels(_) => pexels_request_outcome(
                query,
                color,
                key,
                key_bytes,
                orientation,
                r,
            ),
            WallpaperSourceImpl::Bing(_) => r matches Ok(req) && req.url@ == bing_archive_url()
                && req.authorization is None,
        }
    }

    /// Whether `reply` has the shape this service answers with.
    pub open spec fn answers(self, reply: ApiResponse) -> bool {
        match (self, reply) {
            (WallpaperSourceImpl::Wallhaven(_), ApiResponse::Wallhaven(_)) => true,
            (WallpaperSourceImpl::Unsplash(_), ApiResponse::Unsplash(_)) => true,
            (WallpaperSourceImpl::Pexels(_), ApiResponse::Pexels(_)) => true,
            (WallpaperSourceImpl::Bing(_), ApiResponse::Bing(_)) => true,
            _ => false,
        }
    }

    /// What the image selected from a reply is.
    pub open spec fn select_outcome(self, reply: ApiResponse, r: Result<String, FetchError>) -> bool {
        match reply {
            ApiResponse::Wallhaven(body) => wallhaven_select_outcome(body, r),
            ApiResponse::Unsplash(body) => r matches Ok(url) && url@ == body.urls.full@,
            ApiResponse::Pexels(body) => pexels_select_outcome(body, r),
            ApiResponse::Bing(body) => bing_select_outcome(body, r),
        }
    }

    /// The service named `name`, and whether the name was recognised;
    /// an unknown name falls back to Wallhaven.
    pub fn from_name(name: &str) -> (r: (WallpaperSourceImpl, bool))
        ensures
            r == source_named(name@),
    {
        if same_text(name, "unsplash") {
            (WallpaperSourceImpl::Unsplash(Unsplash), true)
        } else if same_text(name, "pexels") {
            (WallpaperSourceImpl::Pexels(Pexels), true)
        } else if same_text(name, "bing") {
            (WallpaperSourceImpl::Bing(Bing), true)
        } else if same_text(name, "wallhaven") {
            (WallpaperSourceImpl::Wallhaven(Wallhaven), true)
        } else {
            (WallpaperSourceImpl::Wallhaven(Wallhaven), false)
        }
    }

    /// What to send to this service for the given search parameters.
    pub fn request(&self, query: &str, color: &str, key: &str, orientation: &str) -> (r: Result<
        ApiRequest,
        FetchError,
    >)
        ensures
            self.request_outcome(query@, color@, key@, key.spec_bytes(), orientation@, r),
    {
        match self {
            WallpaperSourceImpl::Wallhaven(s) => Ok(s.request(query, color, key, orientation)),
            WallpaperSourceImpl::Unsplash(s) => s.request(query, color, key, orientation),
            WallpaperSourceImpl::Pexels(s) => s.request(query, color, key, orientation),
            WallpaperSourceImpl::Bing(s) => Ok(s.request()),
        }
    }

    /// Judges the reply's status: a success in `200..=299`, otherwise an
    /// error naming this service and the status.
    pub fn check_status(&self, code: u16) -> (r: Result<(), FetchError>)
        requires
            100 <= code <= 999,
        ensures
            is_success(code) ==> r is Ok,
            !is_success(code) ==> r == Err::<(), FetchError>(
                FetchError::Status { source: *self, code },
            ),
            r matches Err(e) ==> e.well_formed(),
    {
        if 200 <= code && code < 300 {
            Ok(())
        } else {
            Err(FetchError::Status { source: *self, code })
        }
    }

    /// The wallpaper URL taken from the service's decoded reply.
    pub fn select(&self, reply: &ApiResponse) -> (r: Result<String, FetchError>)
        requires
            self.answers(*reply),
        ensures
            self.select_outcome(*reply, r),
    {
        match reply {
            ApiResponse::Wallhaven(body) => Wallhaven.select(body),
            ApiResponse::Unsplash(body) => Ok(Unsplash.select(body)),
            ApiResponse::Pexels(body) => Pexels.select(body),
            ApiResponse::Bing(body) => Bing.select(body),
        }
    }
}

// ---------------------------------------------------------------------------
// Laws of the services
// ---------------------------------------------------------------------------

/// A status is judged a success exactly when it lies in `200..=299`.
pub proof fn lemma_success_range(code: u16)
    ensures
        is_success(code) <==> (200 <= code && code <= 299),
{
}

/// Each of the four names selects its own service and is recognised; every
/// other name selects Wallhaven and is reported as not recognised.
pub proof fn lemma_source_names(name: Seq<char>)
    ensures
        name == "unsplash"@ ==> source_named(name) == (WallpaperSourceImpl::Unsplash(Unsplash), true),
        name == "pexels"@ ==> source_named(name) == (WallpaperSourceImpl::Pexels(Pexels), true),
        name == "bing"@ ==> source_named(name) == (WallpaperSourceImpl::Bing(Bing), true),
        name == "wallhaven"@ ==> source_named(name) == (WallpaperSourceImpl::Wallhaven(Wallhaven), true),
        name != "unsplash"@ && name != "pexels"@ && name != "bing"@ && name != "wallhaven"@
            ==> source_named(name) == (WallpaperSourceImpl::Wallhaven(Wallhaven), false),
        source_named(name).1 <==> (name == "unsplash"@ || name == "pexels"@ || name == "bing"@
            || name == "wallhaven"@),
{
    reveal_strlit("unsplash");
    reveal_strlit("pexels");
    reveal_strlit("bing");
    reveal_strlit("wallhaven");
    assert("unsplash"@.len() == 8);
    assert("pexels"@.len() == 6);
    assert("bing"@.len() == 4);
    assert("wallhaven"@.len() == 9);
}

/// What each service's request is: Wallhaven always gives a request (its
/// search URL with some six-character seed, no header); Bing always gives
/// its archive URL with no header; Unsplash and Pexels refuse an empty key.
pub proof fn lemma_request_by_service(
    source: WallpaperSourceImpl,
    query: Seq<char>,
    color: Seq<char>,
    key: Seq<char>,
    key_bytes: Seq<u8>,
    orientation: Seq<char>,
    r: Result<ApiRequest, FetchError>,
)
    requires
        source.request_outcome(query, color, key, key_bytes, orientation, r),
    ensures
        source is Wallhaven ==> (r matches Ok(req) && req.authorization is None && exists|
            seed: Seq<char>,
        |
            wallhaven::is_seed(seed) && req.url@ == #[trigger] wallhaven::wallhaven_url(
                query,
                color,
                key,
                orientation,
                seed,
            )),
        source is Bing ==> (r matches Ok(req) && req.authorization is None && req.url@
            == "https://www.bing.com/HPImageArchive.aspx?format=js&n=1"@),
        source is Unsplash ==> (r is Err <==> key.len() == 0),
        source is Unsplash && key.len() != 0 ==> (r matches Ok(req) && req.url@
            == unsplash::unsplash_url(query, color, key, orientation)),
        source is Pexels ==> (r is Err <==> (key.len() == 0 || !valid_header_value(key_bytes))),
        source is Pexels && key.len() != 0 && valid_header_value(key_bytes) ==> (r matches Ok(req)
            && req.url@ == pexels::pexels_url(query, color, orientation)),
{
}

/// What is selected from each service's reply: Unsplash's full-size URL;
/// for the others an error exactly when nothing is listed, else Bing's first
/// image (made absolute) or one of the listed Wallhaven paths or Pexels
/// originals.
pub proof fn lemma_select_by_reply(
    source: WallpaperSourceImpl,
    reply: ApiResponse,
    r: Result<String, FetchError>,
)
    requires
        source.select_outcome(reply, r),
    ensures
        reply matches ApiResponse::Unsplash(body) ==> (r matches Ok(url) && url@ == body.urls.full@),
        reply matches ApiResponse::Bing(body) ==> ((r is Err <==> body.images@.len() == 0) && (
        r matches Ok(url) ==> url@ == "https://www.bing.com"@ + body.images@[0].url@)),
        reply matches ApiResponse::Wallhaven(body) ==> ((r is Err <==> body.data@.len() == 0) && (
        r matches Ok(path) ==> exists|i: int|
            0 <= i < body.data@.len() && path@ == (#[trigger] body.data@[i]).path@)),
        reply matches ApiResponse::Pexels(body) ==> ((r is Err <==> body.photos@.len() == 0) && (
        r matches Ok(url) ==> exists|i: int|
            0 <= i < body.photos@.len() && url@ == (#[trigger] body.photos@[i]).src.original@)),
{
}

/// A status error's text names the service and ends with the printed status:
/// `Failed to fetch data: ` for Wallhaven, `Failed to fetch data from
/// <Service>: ` for the others.
pub proof fn lemma_status_error_text(source: WallpaperSourceImpl, code: u16)
    ensures
        ends_with((FetchError::Status { source, code }).text(), status_text(code)),
        source is Wallhaven ==> (FetchError::Status { source, code }).text() == "Failed to fetch data: "@
            + status_text(code),
        source is Bing ==> (FetchError::Status { source, code }).text()
            == "Failed to fetch data from Bing: "@ + status_text(code),
        source is Unsplash ==> (FetchError::Status { source, code }).text()
            == "Failed to fetch data from Unsplash: "@ + status_text(code),
        source is Pexels ==> (FetchError::Status { source, code }).text()
            == "Failed to fetch data from Pexels: "@ + status_text(code),
        status_text(code) == decimal(code as nat) + seq![' '] + match reason_phrase(code) {
            Some(p) => p,
            None => "<unknown status code>"@,
        },
{
    let t = (FetchError::Status { source, code }).text();
    let st = status_text(code);
    assert(t.skip(t.len() - st.len()) =~= st);
}

/// The orientation appended to a URL is exactly the spelled-out
/// orientation part.
pub proof fn lemma_orientation_part(url: Seq<char>, orientation: Seq<char>)
    ensures
        (if orientation.len() != 0 {
            url + "&orientation="@ + orientation_value(orientation)
        } else {
            url
        }) == url + orientation_suffix(orientation),
{
    if orientation.len() != 0 {
        assert(url + "&orientation="@ + orientation_value(orientation) =~= url + orientation_suffix(
            orientation,
        ));
    } else {
        assert(url =~= url + orientation_suffix(orientation));
    }
}

// ---------------------------------------------------------------------------
// Errors
// ---------------------------------------------------------------------------

impl FetchError {
    /// A status error carries a code that a status can have.
    pub open spec fn well_formed(&self) -> bool {
        match self {
            FetchError::Status { code, .. } => 100 <= *code <= 999,
            _ => true,
        }
    }

    /// Whether the error is well formed: a status error's code lies in
    /// `100..=999`.
    pub fn is_well_formed(&self) -> (r: bool)
        ensures
            r == self.well_formed(),
    {
        match self {
            FetchError::Status { code, .. } => 100 <= *code && *code <= 999,
            _ => true,
        }
    }

    /// The text that describes the error.
    pub open spec fn text(&self) -> Seq<char> {
        match self {
            FetchError::UnsplashKeyMissing => "Unsplash requires an API key to be provided in the config or CLI."@,
            FetchError::PexelsKeyMissing => "Pexels requires an API key. Please provide it via config or CLI (--pexels-key)."@,
            FetchError::InvalidHeaderValue => "failed to parse header value"@,
            FetchError::Status { source, code } => match source {
                WallpaperSourceImpl::Wallhaven(_) => "Failed to fetch data: "@ + status_text(*code),
                WallpaperSourceImpl::Unsplash(_) => "Failed to fetch data from Unsplash: "@ + status_text(*code),
                WallpaperSourceImpl::Pexels(_) => "Failed to fetch data from Pexels: "@ + status_text(*code),
                WallpaperSourceImpl::Bing(_) => "Failed to fetch data from Bing: "@ + status_text(*code),
            },
            FetchError::NoWallpaper(source) => match source {
                WallpaperSourceImpl::Wallhaven(_) => "No wallpaper was found"@,
                WallpaperSourceImpl::Unsplash(_) => "No wallpaper was found on Unsplash"@,
                WallpaperSourceImpl::Pexels(_) => "No wallpaper was found on Pexels"@,
                WallpaperSourceImpl::Bing(_) => "No wallpaper was found on Bing"@,
            },
            FetchError::Transport(text) => text@,
        }
    }

    /// The text that describes the error.
    pub fn message(&self) -> (r: String)
        requires
            self.well_formed(),
        ensures
            r@ == self.text(),
    {
        match self {
            FetchError::UnsplashKeyMissing => "Unsplash requires an API key to be provided in the config or CLI.".to_owned(),
            FetchError::PexelsKeyMissing => "Pexels requires an API key. Please provide it via config or CLI (--pexels-key).".to_owned(),
            FetchError::InvalidHeaderValue => "failed to parse header value".to_owned(),
            FetchError::Status { source, code } => {
                let mut text = match source {
                    WallpaperSourceImpl::Wallhaven(_) => "Failed to fetch data: ".to_owned(),
                    WallpaperSourceImpl::Unsplash(_) => "Failed to fetch data from Unsplash: ".to_owned(),
                    WallpaperSourceImpl::Pexels(_) => "Failed to fetch data from Pexels: ".to_owned(),
                    WallpaperSourceImpl::Bing(_) => "Failed to fetch data from Bing: ".to_owned(),
                };
                let line = status_line(*code);
                text.append(line.as_str());
                text
            },
            FetchError::NoWallpaper(source) => match source {
                WallpaperSourceImpl::Wallhaven(_) => "No wallpaper was found".to_owned(),
                WallpaperSourceImpl::Unsplash(_) => "No wallpaper was found on Unsplash".to_owned(),
                WallpaperSourceImpl::Pexels(_) => "No wallpaper was found on Pexels".to_owned(),
                WallpaperSourceImpl::Bing(_) => "No wallpaper was found on Bing".to_owned(),
            },
            FetchError::Transport(text) => text.clone(),
        }
    }
}

} // verus!
