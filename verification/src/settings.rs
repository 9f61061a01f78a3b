//! How the settings of a run are decided from the built-in defaults, the
//! configuration file and the command line: the command line wins over the
//! file, and the file over the defaults.

use vstd::prelude::*;
use vstd::string::*;

use crate::text::same_text;

verus! {

/// API keys kept in the configuration file.
#[derive(Clone, Debug, Default, PartialEq, Eq)]
pub struct ApiKeys {
    pub wallhaven: Option<String>,
    pub unsplash: Option<String>,
    pub pexels: Option<String>,
}

/// The configuration file's settings; each may be absent.
#[derive(Clone, Debug, Default, PartialEq, Eq)]
pub struct Config {
    pub query: Option<String>,
    pub color: Option<String>,
    pub api_keys: Option<ApiKeys>,
    pub save_wallpaper: Option<bool>,
    pub download_location: Option<String>,
    pub orientation: Option<String>,
    pub source: Option<String>,
}

/// The settings given on the command line; each may be absent.
#[derive(Clone, Debug, Default, PartialEq, Eq)]
pub struct CliOptions {
    pub query: Option<String>,
    pub color: Option<String>,
    pub wallhaven_key: Option<String>,
    pub unsplash_key: Option<String>,
    pub pexels_key: Option<String>,
    pub download_location: Option<String>,
    pub orientation: Option<String>,
    pub source: Option<String>,
}

/// The settings a run goes by.
#[derive(Clone, Debug, PartialEq, Eq)]
pub struct Settings {
    pub query: String,
    pub color: String,
    pub orientation: String,
    /// The name of the service asked, as given.
    pub source: String,
    /// The API key for the service asked.
    pub key: String,
    /// The folder downloads are saved in, when one that exists was given.
    pub save_location: Option<String>,
    /// Whether the wallpaper is to be downloaded.
    pub save_wallpaper: bool,
    /// The configuration file's download folder, when it does not exist.
    pub missing_config_location: Option<String>,
    /// The command line's download folder, when it does not exist.
    pub missing_cli_location: Option<String>,
}

/// The view of an optional text.
pub open spec fn opt_text(o: Option<String>) -> Option<Seq<char>> {
    match o {
        Some(s) => Some(s@),
        None => None,
    }
}

/// The command-line value when given, else the file's value when given,
/// else `default`.
pub open spec fn layered(cli: Option<String>, file: Option<String>, default: Seq<char>) -> Seq<
    char,
> {
    match cli {
        Some(v) => v@,
        None => match file {
            Some(v) => v@,
            None => default,
        },
    }
}

/// The configuration file's key for Wallhaven.
pub open spec fn file_wallhaven_key(config: Config) -> Option<String> {
    match config.api_keys {
        Some(keys) => keys.wallhaven,
        None => None,
    }
}

/// The configuration file's key for Unsplash.
pub open spec fn file_unsplash_key(config: Config) -> Option<String> {
    match config.api_keys {
        Some(keys) => keys.unsplash,
        None => None,
    }
}

/// The configuration file's key for Pexels.
pub open spec fn file_pexels_key(config: Config) -> Option<String> {
    match config.api_keys {
        Some(keys) => keys.pexels,
        None => None,
    }
}

/// The search query of a run: command line, file, else `pixel`.
pub open spec fn resolved_query(config: Config, cli: CliOptions) -> Seq<char> {
    layered(cli.query, config.query, "pixel"@)
}

/// The colour of a run: command line, file, else empty.
pub open spec fn resolved_color(config: Config, cli: CliOptions) -> Seq<char> {
    layered(cli.color, config.color, Seq::empty())
}

/// The orientation of a run: command line, file, else `landscape`.
pub open spec fn resolved_orientation(config: Config, cli: CliOptions) -> Seq<char> {
    layered(cli.orientation, config.orientation, "landscape"@)
}

/// A named download folder that does not exist, for the warning about it.
pub open spec fn unfound_location(location: Option<String>, exists: bool) -> Option<String> {
    if location is Some && !exists {
        location
    } else {
        None
    }
}

/// The service name a run asks: command line, file, else `wallhaven`.
pub open spec fn resolved_source(config: Config, cli: CliOptions) -> Seq<char> {
    layered(cli.source, config.source, "wallhaven"@)
}

/// The key a run sends: the Unsplash key for `unsplash`, the Pexels key for
/// `pexels`, the Wallhaven key for any other name; each from the command
/// line, else the file, else empty.
pub open spec fn resolved_key(config: Config, cli: CliOptions) -> Seq<char> {
    let source = resolved_source(config, cli);
    if source == "unsplash"@ {
        layered(cli.unsplash_key, file_unsplash_key(config), Seq::empty())
    } else if source == "pexels"@ {
        layered(cli.pexels_key, file_pexels_key(config), Seq::empty())
    } else {
        layered(cli.wallhaven_key, file_wallhaven_key(config), Seq::empty())
    }
}

/// The download folder a run uses: the command line's when given and
/// existing, else the file's when given and existing.
pub open spec fn resolved_location(
    config: Config,
    cli: CliOptions,
    config_location_exists: bool,
    cli_location_exists: bool,
) -> Option<Seq<char>> {
    if cli.download_location is Some && cli_location_exists {
        opt_text(cli.download_location)
    } else if config.download_location is Some && config_location_exists {
        opt_text(config.download_location)
    } else {
        None
    }
}

/// Whether a run downloads: when the command line names an existing folder,
/// otherwise as the file says (no when it says nothing).
pub open spec fn resolved_save(config: Config, cli: CliOptions, cli_location_exists: bool) -> bool {
    if cli.download_location is Some && cli_location_exists {
        true
    } else {
        match config.save_wallpaper {
            Some(b) => b,
            None => false,
        }
    }
}

/// The folder to download into: the save location when downloading is on.
pub open spec fn download_target(save: bool, location: Option<String>) -> Option<String> {
    if save {
        location
    } else {
        None
    }
}

/// A download happens exactly when downloading is on and a folder was
/// settled, and then into that folder.
pub proof fn lemma_download_target(save: bool, location: Option<String>)
    ensures
        download_target(save, location) is Some <==> (save && location is Some),
        download_target(save, location) is Some ==> download_target(save, location) == location,
{
}

/// A copy of an optional text.
pub fn copy_text(o: &Option<String>) -> (r: Option<String>)
    ensures
        r == *o,
{
    match o {
        Some(s) => Some(s.clone()),
        None => None,
    }
}

/// The command-line value when given, else the file's value when given,
/// else `default`.
pub fn layered_text(cli: &Option<String>, file: &Option<String>, default: &str) -> (r: String)
    ensures
        r@ == layered(*cli, *file, default@),
{
    match cli {
        Some(v) => v.clone(),
        None => match file {
            Some(v) => v.clone(),
            None => default.to_owned(),
        },
    }
}

/// Decides the settings of a run. `config_location_exists` and
/// `cli_location_exists` tell whether the download folders named by the file
/// and by the command line exist (each is read only when that folder is
/// named).
pub fn resolve(
    config: &Config,
    cli: &CliOptions,
    config_location_exists: bool,
    cli_location_exists: bool,
) -> (s: Settings)
    ensures
        s.query@ == resolved_query(*config, *cli),
        s.color@ == resolved_color(*config, *cli),
        s.orientation@ == resolved_orientation(*config, *cli),
        s.source@ == resolved_source(*config, *cli),
        s.key@ == resolved_key(*config, *cli),
        opt_text(s.save_location) == resolved_location(
            *config,
            *cli,
            config_location_exists,
            cli_location_exists,
        ),
        s.save_wallpaper == resolved_save(*config, *cli, cli_location_exists),
        s.missing_config_location == unfound_location(
            config.download_location,
            config_location_exists,
        ),
        s.missing_cli_location == unfound_location(cli.download_location, cli_location_exists),
{
    let query = layered_text(&cli.query, &config.query, "pixel");
    let color = layered_text(&cli.color, &config.color, "");
    let orientation = layered_text(&cli.orientation, &config.orientation, "landscape");
    let source = layered_text(&cli.source, &config.source, "wallhaven");
    let (file_wallhaven, file_unsplash, file_pexels) = match &config.api_keys {
        Some(keys) => (copy_text(&keys.wallhaven), copy_text(&keys.unsplash), copy_text(&keys.pexels)),
        None => (None, None, None),
    };
    let key = if same_text(source.as_str(), "unsplash") {
        layered_text(&cli.unsplash_key, &file_unsplash, "")
    } else if same_text(source.as_str(), "pexels") {
        layered_text(&cli.pexels_key, &file_pexels, "")
    } else {
        layered_text(&cli.wallhaven_key, &file_wallhaven, "")
    };
    let mut save_wallpaper = match config.save_wallpaper {
        Some(b) => b,
        None => false,
    };
    let mut save_location: Option<String> = None;
    let mut missing_config_location: Option<String> = None;
    let mut missing_cli_location: Option<String> = None;
    match &config.download_location {
        Some(loc) => {
            if config_location_exists {
                save_location = Some(loc.clone());
            } else {
                missing_config_location = Some(loc.clone());
            }
        },
        None => {},
    }
    match &cli.download_location {
        Some(loc) => {
            if cli_location_exists {
                save_location = Some(loc.clone());
                save_wallpaper = true;
            } else {
                missing_cli_location = Some(loc.clone());
            }
        },
        None => {},
    }
    proof {
        reveal_strlit("");
    }
    Settings {
        query,
        color,
        orientation,
        source,
        key,
        save_location,
        save_wallpaper,
        missing_config_location,
        missing_cli_location,
    }
}

/// A setting given on the command line is used whatever the configuration
/// file says; one given only in the file is used whatever the default is.
pub proof fn lemma_command_line_wins(
    cli: Option<String>,
    file_a: Option<String>,
    file_b: Option<String>,
    default_a: Seq<char>,
    default_b: Seq<char>,
)
    ensures
        cli is Some ==> layered(cli, file_a, default_a) == layered(cli, file_b, default_b),
        cli is None && file_a is Some ==> layered(cli, file_a, default_a) == layered(
            cli,
            file_a,
            default_b,
        ),
{
}

/// The text of an optional text, or empty.
pub open spec fn text_or_empty(o: Option<String>) -> Seq<char> {
    match o {
        Some(t) => t@,
        None => Seq::empty(),
    }
}

/// Each text setting comes from the command line when given there, else
/// from the configuration file when given there, else from its default:
/// query `pixel`, colour empty, orientation `landscape`, service
/// `wallhaven`.
pub proof fn lemma_text_settings(config: Config, cli: CliOptions)
    ensures
        cli.query matches Some(q) ==> resolved_query(config, cli) == q@,
        cli.query is None ==> (config.query matches Some(q) ==> resolved_query(config, cli) == q@),
        cli.query is None && config.query is None ==> resolved_query(config, cli) == "pixel"@,
        cli.color matches Some(c) ==> resolved_color(config, cli) == c@,
        cli.color is None ==> (config.color matches Some(c) ==> resolved_color(config, cli) == c@),
        cli.color is None && config.color is None ==> resolved_color(config, cli).len() == 0,
        cli.orientation matches Some(o) ==> resolved_orientation(config, cli) == o@,
        cli.orientation is None ==> (config.orientation matches Some(o) ==> resolved_orientation(
            config,
            cli,
        ) == o@),
        cli.orientation is None && config.orientation is None ==> resolved_orientation(config, cli)
            == "landscape"@,
        cli.source matches Some(n) ==> resolved_source(config, cli) == n@,
        cli.source is None ==> (config.source matches Some(n) ==> resolved_source(config, cli) == n@),
        cli.source is None && config.source is None ==> resolved_source(config, cli)
            == "wallhaven"@,
{
}

/// The key sent is the chosen service's key: for `unsplash` the Unsplash
/// key, for `pexels` the Pexels key, for any other name the Wallhaven key.
/// A key given on the command line is used whatever the configuration file
/// holds; without one, the file's key for that service, or empty.
pub proof fn lemma_key_settings(config: Config, cli: CliOptions)
    ensures
        resolved_source(config, cli) == "pexels"@ ==> resolved_key(config, cli) == match cli.pexels_key {
            Some(k) => k@,
            None => match config.api_keys {
                Some(keys) => text_or_empty(keys.pexels),
                None => Seq::empty(),
            },
        },
        resolved_source(config, cli) == "unsplash"@ ==> resolved_key(config, cli) == match cli.unsplash_key {
            Some(k) => k@,
            None => match config.api_keys {
                Some(keys) => text_or_empty(keys.unsplash),
                None => Seq::empty(),
            },
        },
        resolved_source(config, cli) != "pexels"@ && resolved_source(config, cli) != "unsplash"@
            ==> resolved_key(config, cli) == match cli.wallhaven_key {
            Some(k) => k@,
            None => match config.api_keys {
                Some(keys) => text_or_empty(keys.wallhaven),
                None => Seq::empty(),
            },
        },
{
    reveal_strlit("pexels");
    reveal_strlit("unsplash");
    assert("pexels"@.len() == 6);
    assert("unsplash"@.len() == 8);
}

/// Where and whether a run downloads. A command-line folder that exists is
/// used, and downloading is then on. Otherwise (no command-line folder, or
/// one that does not exist) the decision is the configuration file's: its
/// folder when that exists, and downloading as its `save_wallpaper` says,
/// off when it says nothing. A named folder that does not exist, and only
/// such a folder, is reported.
pub proof fn lemma_download_settings(
    config: Config,
    cli: CliOptions,
    config_location_exists: bool,
    cli_location_exists: bool,
)
    ensures
        cli_location_exists ==> (cli.download_location matches Some(l) ==> resolved_save(
            config,
            cli,
            cli_location_exists,
        ) && resolved_location(config, cli, config_location_exists, cli_location_exists)
            == Some(l@)),
        !(cli.download_location is Some && cli_location_exists) ==> resolved_save(
            config,
            cli,
            cli_location_exists,
        ) == (config.save_wallpaper == Some(true)),
        !(cli.download_location is Some && cli_location_exists) ==> resolved_location(
            config,
            cli,
            config_location_exists,
            cli_location_exists,
        ) == (if config_location_exists {
            opt_text(config.download_location)
        } else {
            None
        }),
        unfound_location(cli.download_location, cli_location_exists) is Some <==> (
        cli.download_location is Some && !cli_location_exists),
        unfound_location(cli.download_location, cli_location_exists) is Some
            ==> unfound_location(cli.download_location, cli_location_exists)
            == cli.download_location,
{
}

impl Settings {
    /// The folder to download into: the save location, when downloading is
    /// on and a location was settled.
    pub fn download_dir(&self) -> (r: Option<String>)
        ensures
            r == download_target(self.save_wallpaper, self.save_location),
    {
        if self.save_wallpaper {
            copy_text(&self.save_location)
        } else {
            None
        }
    }
}

} // verus!
