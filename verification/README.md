# paperwall

A command-line tool that fetches a random wallpaper from Wallhaven, Unsplash,
Pexels or Bing, sets it as the desktop background, optionally saves it, and
keeps a history of the wallpapers it applied so that an earlier one can be
restored.

The decisions of the tool are a library verified with Verus (`src/`):

- `sources/` — the request sent to each service, the judgement of the reply's
  status, and the image picked from the decoded reply, with the error texts.
- `settings.rs` — how defaults, the configuration file and the command line
  combine into the settings of a run.
- `history.rs` — the bounded history of applied wallpapers, its listing, and
  going back a number of steps.
- `download.rs` — the file name a downloaded image is saved under.
- `text.rs`, `random.rs` — character-level helpers and the random choices.

`app/` is the program around it: argument parsing, reading the configuration
and history files, the HTTP requests, downloading, and setting the wallpaper.
