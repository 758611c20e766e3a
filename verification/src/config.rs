//! Settings the rest of the crate is configured with.
use std::sync::Arc;
use vstd::prelude::*;

verus! {

/// A shared, immutable configuration.
pub type SharedCfg = Arc<Config>;

/// Codec settings used with FFmpeg: a template of arguments in which a
/// placeholder is written as `%` followed by its name.
#[derive(Debug, Clone)]
pub struct CodecConfig {
    pub args: Vec<String>,
}

/// Settings for the database.
#[derive(Debug, Clone)]
pub struct DatabaseConfig {
    pub name: String,
}

/// Settings for FFmpeg. `codecs` maps a codec identifier to its profile;
/// the identifier `*` names the default profile.
#[derive(Debug, Clone)]
pub struct FFmpegConfig {
    pub bin: String,
    pub codecs: Vec<(String, CodecConfig)>,
}

/// Settings for the library.
#[derive(Debug, Clone)]
pub struct LibraryConfig {
    pub movies: String,
}

/// Settings for The Movie Database.
#[derive(Debug, Clone)]
pub struct TmdbConfig {
    pub api_key: String,
}

/// The base configuration.
#[derive(Debug)]
pub struct Config {
    pub ffmpeg: FFmpegConfig,
    pub library: LibraryConfig,
    pub database: DatabaseConfig,
    pub tmdb: TmdbConfig,
}

impl Config {
    /// Puts the configuration behind a shared pointer.
    pub fn into_shared(self) -> (shared: SharedCfg)
        ensures
            *shared == self,
    {
        Arc::new(self)
    }
}

} // verus!
