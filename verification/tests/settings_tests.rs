use paperwall::settings::{resolve, ApiKeys, CliOptions, Config};

fn s(x: &str) -> Option<String> {
    Some(x.to_string())
}

#[test]
fn defaults_apply_without_config_or_flags() {
    let st = resolve(&Config::default(), &CliOptions::default(), false, false);
    assert_eq!(st.query, "pixel");
    assert_eq!(st.color, "");
    assert_eq!(st.orientation, "landscape");
    assert_eq!(st.source, "wallhaven");
    assert_eq!(st.key, "");
    assert_eq!(st.save_location, None);
    assert!(!st.save_wallpaper);
    assert_eq!(st.download_dir(), None);
}

#[test]
fn config_overrides_defaults_and_cli_overrides_config() {
    let config = Config {
        query: s("nature"),
        color: s("000000"),
        orientation: s("portrait"),
        source: s("unsplash"),
        ..Config::default()
    };
    let st = resolve(&config, &CliOptions::default(), false, false);
    assert_eq!(st.query, "nature");
    assert_eq!(st.color, "000000");
    assert_eq!(st.orientation, "portrait");
    assert_eq!(st.source, "unsplash");
    let cli = CliOptions { query: s("pokemon"), color: s("ffffff"), source: s("pexels"), ..CliOptions::default() };
    let st = resolve(&config, &cli, false, false);
    assert_eq!(st.query, "pokemon");
    assert_eq!(st.color, "ffffff");
    assert_eq!(st.source, "pexels");
    assert_eq!(st.orientation, "portrait");
}

#[test]
fn key_follows_the_source() {
    let config = Config {
        api_keys: Some(ApiKeys { wallhaven: s("w"), unsplash: s("u"), pexels: s("p") }),
        source: s("unsplash"),
        ..Config::default()
    };
    assert_eq!(resolve(&config, &CliOptions::default(), false, false).key, "u");
    let cli = CliOptions { unsplash_key: s("U"), ..CliOptions::default() };
    assert_eq!(resolve(&config, &cli, false, false).key, "U");
    let cli = CliOptions { source: s("pexels"), ..CliOptions::default() };
    assert_eq!(resolve(&config, &cli, false, false).key, "p");
    let cli = CliOptions { source: s("bing"), ..CliOptions::default() };
    assert_eq!(resolve(&config, &cli, false, false).key, "w");
    let cli = CliOptions { source: s("something"), wallhaven_key: s("W"), ..CliOptions::default() };
    assert_eq!(resolve(&config, &cli, false, false).key, "W");
}

#[test]
fn download_location_rules() {
    let config = Config { save_wallpaper: Some(true), download_location: s("/cfg"), ..Config::default() };
    let st = resolve(&config, &CliOptions::default(), true, false);
    assert_eq!(st.save_location, s("/cfg"));
    assert!(st.save_wallpaper);
    assert_eq!(st.download_dir(), s("/cfg"));

    let st = resolve(&config, &CliOptions::default(), false, false);
    assert_eq!(st.save_location, None);
    assert_eq!(st.missing_config_location, s("/cfg"));
    assert_eq!(st.download_dir(), None);

    let off = Config { save_wallpaper: Some(false), download_location: s("/cfg"), ..Config::default() };
    assert_eq!(resolve(&off, &CliOptions::default(), true, false).download_dir(), None);

    let cli = CliOptions { download_location: s("/cli"), ..CliOptions::default() };
    let st = resolve(&off, &cli, true, true);
    assert_eq!(st.save_location, s("/cli"));
    assert!(st.save_wallpaper);
    assert_eq!(st.download_dir(), s("/cli"));

    let st = resolve(&off, &cli, true, false);
    assert_eq!(st.save_location, s("/cfg"));
    assert_eq!(st.missing_cli_location, s("/cli"));
    assert!(!st.save_wallpaper);
}
