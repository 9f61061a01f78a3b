//! Verified core of a command-line tool that fetches random wallpapers from
//! several image services, remembers what it applied, and can go back to an
//! earlier wallpaper.

pub mod download;
pub mod history;
pub mod random;
pub mod settings;
pub mod sources;
pub mod text;
