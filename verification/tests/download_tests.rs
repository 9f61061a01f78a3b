use paperwall::download::{add_image_extension, file_name_for};

#[test]
fn wallhaven_file_keeps_its_name() {
    let name = file_name_for("https://w.wallhaven.cc/full/ab/wallhaven-abc123.jpg");
    assert_eq!(name, "wallhaven-abc123.jpg");
}

#[test]
fn query_is_cut_before_naming() {
    let name = file_name_for("https://images.pexels.com/photos/1/pexels-photo-1.jpeg?auto=compress&cs=tinysrgb");
    assert_eq!(name, "pexels-photo-1.jpeg");
}

#[test]
fn name_without_extension_gets_jpg() {
    let name = file_name_for("https://images.unsplash.com/photo-123?ixid=abc&fm=jpg");
    assert_eq!(name, "photo-123.jpg");
}

#[test]
fn bing_url_is_named_by_its_id() {
    let name = file_name_for(
        "https://www.bing.com/th?id=OHR.Foo_EN-US123_1920x1080.jpg&rf=LaDigue_1920x1080.jpg&pid=hp",
    );
    assert_eq!(name, "OHR.Foo_EN-US123_1920x1080.jpg");
}

#[test]
fn bing_id_stops_at_the_next_marker_and_ampersand() {
    let name = file_name_for("https://www.bing.com/a?id=X&y=1id=Z");
    assert_eq!(name, "X.jpg");
}

#[test]
fn id_without_bing_host_uses_the_path() {
    let name = file_name_for("https://example.org/pics/cat.png?id=7");
    assert_eq!(name, "cat.png");
}

#[test]
fn upper_case_extension_is_recognised() {
    let name = file_name_for("https://example.org/a/IMAGE.JPG");
    assert_eq!(name, "IMAGE.JPG");
}

#[test]
fn empty_last_segment_gives_bare_extension() {
    let name = file_name_for("https://example.org/a/");
    assert_eq!(name, ".jpg");
}

#[test]
fn url_without_slash_is_its_own_name() {
    assert_eq!(file_name_for("plain"), "plain.jpg");
}

#[test]
fn extension_without_dot_counts() {
    assert_eq!(add_image_extension("xwebp", "xwebp"), "xwebp");
    assert_eq!(add_image_extension("Photo.PNG", "photo.png"), "Photo.PNG");
    assert_eq!(add_image_extension("photo", "photo"), "photo.jpg");
    assert_eq!(add_image_extension("photo.gif", "photo.gif"), "photo.gif.jpg");
}

#[test]
fn every_file_name_looks_like_an_image() {
    let urls = [
        "https://a.b/c.gif",
        "https://a.b/c",
        "https://a.b/C.WEBP",
        "https://www.bing.com/th?id=abc.jpeg",
        "",
    ];
    for url in urls {
        let name = file_name_for(url);
        let lower = name.to_lowercase();
        let ok = ["jpg", "png", "jpeg", "webp"].iter().any(|e| lower.ends_with(e))
            || name.ends_with(".jpg");
        assert!(ok, "{}", name);
    }
}
