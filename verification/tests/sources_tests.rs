use paperwall::sources::bing::{Bing, BingImage, BingResponse};
use paperwall::sources::pexels::{Pexels, PexelsPhoto, PexelsResponse, PexelsSrc};
use paperwall::sources::unsplash::{Unsplash, UnsplashResponse, UnsplashUrls};
use paperwall::sources::wallhaven::{generate_seed, Wallhaven, WallhavenResponse, WallhavenWallpaper};
use paperwall::sources::{
    default_query, format_status, status_line, ApiResponse, FetchError, WallpaperSourceImpl,
};

const WALLHAVEN: WallpaperSourceImpl = WallpaperSourceImpl::Wallhaven(Wallhaven);
const UNSPLASH: WallpaperSourceImpl = WallpaperSourceImpl::Unsplash(Unsplash);
const PEXELS: WallpaperSourceImpl = WallpaperSourceImpl::Pexels(Pexels);
const BING: WallpaperSourceImpl = WallpaperSourceImpl::Bing(Bing);

#[test]
fn source_names() {
    assert_eq!(WallpaperSourceImpl::from_name("unsplash"), (UNSPLASH, true));
    assert_eq!(WallpaperSourceImpl::from_name("pexels"), (PEXELS, true));
    assert_eq!(WallpaperSourceImpl::from_name("bing"), (BING, true));
    assert_eq!(WallpaperSourceImpl::from_name("wallhaven"), (WALLHAVEN, true));
    assert_eq!(WallpaperSourceImpl::from_name("Bing"), (WALLHAVEN, false));
    assert_eq!(WallpaperSourceImpl::from_name(""), (WALLHAVEN, false));
}

#[test]
fn seed_is_six_alphanumerics() {
    for _ in 0..20 {
        let seed = generate_seed();
        assert_eq!(seed.chars().count(), 6);
        assert!(seed.chars().all(|c| c.is_ascii_alphanumeric()));
    }
}

#[test]
fn wallhaven_url_layout() {
    let url = Wallhaven.api_url("pixel", "ffffff", "", "landscape", "abc123");
    assert_eq!(
        url,
        "https://wallhaven.cc/api/v1/search?q=pixel&colors=ffffff&sorting=random&seed=abc123&ratios=16x9,16x10,21x9,32x9,3:2"
    );
    let url = Wallhaven.api_url("cats", "", "KEY", "portrait", "Z9Z9Z9");
    assert_eq!(
        url,
        "https://wallhaven.cc/api/v1/search?q=cats&colors=&sorting=random&seed=Z9Z9Z9&ratios=9x16,10x16&apikey=KEY"
    );
}

#[test]
fn wallhaven_request_uses_a_fresh_seed() {
    let req = WALLHAVEN.request("pixel", "", "", "landscape").unwrap();
    assert!(req.authorization.is_none());
    let prefix = "https://wallhaven.cc/api/v1/search?q=pixel&colors=&sorting=random&seed=";
    assert!(req.url.starts_with(prefix));
    let rest = &req.url[prefix.len()..];
    let seed = &rest[..6];
    assert!(seed.chars().all(|c| c.is_ascii_alphanumeric()));
    assert_eq!(&rest[6..], "&ratios=16x9,16x10,21x9,32x9,3:2");
}

#[test]
fn unsplash_needs_a_key() {
    assert_eq!(UNSPLASH.request("nature", "", "", ""), Err(FetchError::UnsplashKeyMissing));
}

#[test]
fn unsplash_url_layout() {
    let req = UNSPLASH.request("pixel", "", "K", "").unwrap();
    assert_eq!(req.url, "https://api.unsplash.com/photos/random?client_id=K");
    assert!(req.authorization.is_none());
    let req = UNSPLASH.request("nature", "black", "K", "portrait").unwrap();
    assert_eq!(
        req.url,
        "https://api.unsplash.com/photos/random?client_id=K&query=nature&color=black&orientation=portrait"
    );
    let req = UNSPLASH.request("", "", "K", "sideways").unwrap();
    assert_eq!(req.url, "https://api.unsplash.com/photos/random?client_id=K&orientation=landscape");
}

#[test]
fn pexels_needs_a_key() {
    assert_eq!(PEXELS.request("nature", "", "", ""), Err(FetchError::PexelsKeyMissing));
}

#[test]
fn pexels_rejects_a_key_that_is_no_header_value() {
    assert_eq!(PEXELS.request("nature", "", "bad\nkey", ""), Err(FetchError::InvalidHeaderValue));
    assert_eq!(PEXELS.request("nature", "", "bad\u{7f}", ""), Err(FetchError::InvalidHeaderValue));
    assert!(PEXELS.request("nature", "", "tab\tand é", "").is_ok());
}

#[test]
fn pexels_url_layout() {
    let req = PEXELS.request("pixel", "red", "K", "").unwrap();
    assert_eq!(req.url, "https://api.pexels.com/v1/curated?per_page=50");
    assert_eq!(req.authorization, Some("K".to_string()));
    let req = PEXELS.request("sea", "blue", "K", "landscape").unwrap();
    assert_eq!(
        req.url,
        "https://api.pexels.com/v1/search?query=sea&per_page=50&color=blue&orientation=landscape"
    );
    let req = PEXELS.request("", "", "K", "portrait").unwrap();
    assert_eq!(req.url, "https://api.pexels.com/v1/curated?per_page=50&orientation=portrait");
}

#[test]
fn bing_request_is_fixed() {
    let req = BING.request("q", "c", "k", "portrait").unwrap();
    assert_eq!(req.url, "https://www.bing.com/HPImageArchive.aspx?format=js&n=1");
    assert!(req.authorization.is_none());
}

#[test]
fn default_queries() {
    assert!(default_query(""));
    assert!(default_query("pixel"));
    assert!(!default_query("pixels"));
}

#[test]
fn status_judgement() {
    assert_eq!(WALLHAVEN.check_status(200), Ok(()));
    assert_eq!(BING.check_status(299), Ok(()));
    assert_eq!(
        PEXELS.check_status(404),
        Err(FetchError::Status { source: PEXELS, code: 404 })
    );
    assert!(UNSPLASH.check_status(199).is_err());
    assert!(UNSPLASH.check_status(300).is_err());
}

#[test]
fn status_lines() {
    assert_eq!(status_line(404), "404 Not Found");
    assert_eq!(status_line(200), "200 OK");
    assert_eq!(status_line(599), "599 <unknown status code>");
    assert_eq!(format_status(418, Some("Teapot")), "418 Teapot");
    assert_eq!(format_status(100, None), "100 <unknown status code>");
}

#[test]
fn error_messages() {
    assert_eq!(
        FetchError::UnsplashKeyMissing.message(),
        "Unsplash requires an API key to be provided in the config or CLI."
    );
    assert_eq!(
        FetchError::PexelsKeyMissing.message(),
        "Pexels requires an API key. Please provide it via config or CLI (--pexels-key)."
    );
    assert_eq!(FetchError::InvalidHeaderValue.message(), "failed to parse header value");
    assert_eq!(
        FetchError::Status { source: WALLHAVEN, code: 500 }.message(),
        "Failed to fetch data: 500 Internal Server Error"
    );
    assert_eq!(
        FetchError::Status { source: UNSPLASH, code: 401 }.message(),
        "Failed to fetch data from Unsplash: 401 Unauthorized"
    );
    assert_eq!(
        FetchError::Status { source: PEXELS, code: 429 }.message(),
        "Failed to fetch data from Pexels: 429 Too Many Requests"
    );
    assert_eq!(
        FetchError::Status { source: BING, code: 503 }.message(),
        "Failed to fetch data from Bing: 503 Service Unavailable"
    );
    assert_eq!(FetchError::NoWallpaper(WALLHAVEN).message(), "No wallpaper was found");
    assert_eq!(FetchError::NoWallpaper(PEXELS).message(), "No wallpaper was found on Pexels");
    assert_eq!(FetchError::NoWallpaper(BING).message(), "No wallpaper was found on Bing");
    assert_eq!(FetchError::Transport("timed out".to_string()).message(), "timed out");
}

#[test]
fn wallhaven_selects_a_listed_path() {
    let paths = ["a", "b", "c"];
    let reply = WallhavenResponse {
        data: paths.iter().map(|p| WallhavenWallpaper { path: p.to_string() }).collect(),
    };
    for _ in 0..20 {
        let chosen = WALLHAVEN.select(&ApiResponse::Wallhaven(reply.clone())).unwrap();
        assert!(paths.contains(&chosen.as_str()));
    }
    let empty = WallhavenResponse { data: vec![] };
    assert_eq!(
        WALLHAVEN.select(&ApiResponse::Wallhaven(empty)),
        Err(FetchError::NoWallpaper(WALLHAVEN))
    );
}

#[test]
fn pexels_selects_a_listed_original() {
    let reply = PexelsResponse {
        photos: vec![PexelsPhoto { src: PexelsSrc { original: "o1".to_string() } }],
    };
    assert_eq!(PEXELS.select(&ApiResponse::Pexels(reply)), Ok("o1".to_string()));
    assert_eq!(
        PEXELS.select(&ApiResponse::Pexels(PexelsResponse { photos: vec![] })),
        Err(FetchError::NoWallpaper(PEXELS))
    );
}

#[test]
fn bing_selects_the_first_image() {
    let reply = BingResponse {
        images: vec![
            BingImage { url: "/th?id=OHR.A.jpg".to_string() },
            BingImage { url: "/th?id=OHR.B.jpg".to_string() },
        ],
    };
    assert_eq!(
        BING.select(&ApiResponse::Bing(reply)),
        Ok("https://www.bing.com/th?id=OHR.A.jpg".to_string())
    );
    assert_eq!(
        BING.select(&ApiResponse::Bing(BingResponse { images: vec![] })),
        Err(FetchError::NoWallpaper(BING))
    );
}

#[test]
fn unsplash_selects_the_full_url() {
    let reply = UnsplashResponse { urls: UnsplashUrls { full: "https://img/full".to_string() } };
    assert_eq!(UNSPLASH.select(&ApiResponse::Unsplash(reply)), Ok("https://img/full".to_string()));
}
