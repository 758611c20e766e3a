//! The scanner of the library: which files are movies, and what their
//! names say. Walking the directories is left to the caller, who shows the
//! scanner each file it finds.
use crate::config::{Config, LibraryConfig};
use crate::model::movie::Movie;
use crate::pattern::{captures, regex_captures};
use crate::text::{parse_i32, parsed_i32, trim, trimmed};
use std::sync::Arc;
use vstd::prelude::*;
use vstd::string::StringExecFns;

verus! {

/// A file that was recognized as a movie.
#[derive(Debug)]
pub struct VideoFile {
    pub title: String,
    pub release_year: i32,
    pub path: String,
    pub poster_path: String,
    pub backdrop_path: String,
}

impl Clone for VideoFile {
    fn clone(&self) -> (copy: VideoFile)
        ensures
            copy == *self,
    {
        VideoFile {
            title: self.title.clone(),
            release_year: self.release_year,
            path: self.path.clone(),
            poster_path: self.poster_path.clone(),
            backdrop_path: self.backdrop_path.clone(),
        }
    }
}

/// A recognized file as a mathematical value.
pub struct VideoFileView {
    pub title: Seq<char>,
    pub release_year: i32,
    pub path: Seq<char>,
    pub poster_path: Seq<char>,
    pub backdrop_path: Seq<char>,
}

impl View for VideoFile {
    type V = VideoFileView;

    open spec fn view(&self) -> VideoFileView {
        VideoFileView {
            title: self.title@,
            release_year: self.release_year,
            path: self.path@,
            poster_path: self.poster_path@,
            backdrop_path: self.backdrop_path@,
        }
    }
}

impl VideoFile {
    /// The entry under which this file is stored: the database assigns the
    /// id, and nothing is known of the movie but what the file says.
    pub fn to_movie(&self) -> (movie: Movie)
        ensures
            movie.id == 0,
            movie.tmdb_id == 0,
            movie.title@ == self.title@,
            movie.overview@ == Seq::<char>::empty(),
            movie.release_year == self.release_year,
            movie.file_path@ == self.path@,
            movie.poster_path@ == self.poster_path@,
            movie.backdrop_path@ == self.backdrop_path@,
    {
        Movie {
            id: 0,
            tmdb_id: 0,
            title: self.title.clone(),
            overview: String::new(),
            release_year: self.release_year,
            file_path: self.path.clone(),
            poster_path: self.poster_path.clone(),
            backdrop_path: self.backdrop_path.clone(),
        }
    }
}

/// The names of movies: a title of letters, digits, `_` and spaces, then
/// the year in round brackets.
pub open spec fn title_pattern() -> Seq<char> {
    "^([a-zA-Z0-9_ ]*)\\((\\d+)\\)"@
}

/// What a file says of itself, from what the pattern of names captured in
/// its name: the title without the white space around it, and the year.
/// `None` for a name that the pattern does not match or whose year is no
/// number.
pub open spec fn recognized(groups: Option<Seq<Option<Seq<char>>>>, path: Seq<char>) -> Option<
    VideoFileView,
> {
    match groups {
        Some(g) => if g.len() > 2 && g[1] is Some && g[2] is Some && parsed_i32(g[2]->0)
            is Some {
            Some(
                VideoFileView {
                    title: trimmed(g[1]->0),
                    release_year: parsed_i32(g[2]->0)->0,
                    path,
                    poster_path: "/c6WuCykIy8GAsitJOTk1DEga1ML.jpg"@,
                    backdrop_path: "/qDVdTL1KqGmGLGsy7UPA3vksku7.jpg"@,
                },
            )
        } else {
            None
        },
        None => None,
    }
}

/// The files that were recognized, as mathematical values.
pub open spec fn views(files: Seq<VideoFile>) -> Seq<VideoFileView> {
    Seq::new(files.len(), |i: int| files[i]@)
}

/// Collects the movies among the files it is shown.
pub struct Scanner {
    config: Arc<LibraryConfig>,
    movies: Vec<VideoFile>,
}

impl Scanner {
    /// The movies found so far, in the order in which they were shown.
    pub closed spec fn found(&self) -> Seq<VideoFileView> {
        views(self.movies@)
    }

    /// The directory that holds the library.
    pub closed spec fn library(&self) -> Seq<char> {
        self.config.movies@
    }

    /// A scanner for the library that `config` names. It has found nothing
    /// yet.
    pub fn new(config: Arc<Config>) -> (scanner: Scanner)
        ensures
            scanner.found() == Seq::<VideoFileView>::empty(),
            scanner.library() == config.library.movies@,
    {
        let library = LibraryConfig { movies: config.library.movies.clone() };
        let scanner = Scanner { config: Arc::new(library), movies: Vec::new() };
        assert(scanner.found() =~= Seq::<VideoFileView>::empty());
        scanner
    }

    /// The directory to walk.
    pub fn root(&self) -> (root: &str)
        ensures
            root@ == self.library(),
    {
        self.config.movies.as_str()
    }

    /// Shows the scanner the file called `file_name` that lies at `path`.
    /// Where its name is that of a movie, the file is added to what was
    /// found; any other file is passed over.
    pub fn visit(&mut self, file_name: &str, path: &str)
        ensures
            final(self).library() == old(self).library(),
            final(self).found() == match recognized(
                regex_captures(title_pattern(), file_name@),
                path@,
            ) {
                Some(file) => old(self).found().push(file),
                None => old(self).found(),
            },
    {
        if let Some(groups) = captures("^([a-zA-Z0-9_ ]*)\\((\\d+)\\)", file_name) {
            if groups.len() > 2 {
                if let Some(title) = &groups[1] {
                    if let Some(year) = &groups[2] {
                        if let Some(release_year) = parse_i32(year.as_str()) {
                            let movie = VideoFile {
                                title: String::from_str(trim(title.as_str())),
                                release_year,
                                path: String::from_str(path),
                                poster_path: String::from_str("/c6WuCykIy8GAsitJOTk1DEga1ML.jpg"),
                                backdrop_path: String::from_str(
                                    "/qDVdTL1KqGmGLGsy7UPA3vksku7.jpg",
                                ),
                            };
                            self.movies.push(movie);
                            assert(self.found() =~= old(self).found().push(movie@));
                        }
                    }
                }
            }
        }
    }

    /// The movies found so far.
    pub fn movies(&self) -> (movies: &Vec<VideoFile>)
        ensures
            views(movies@) == self.found(),
    {
        &self.movies
    }
}

} // verus!
