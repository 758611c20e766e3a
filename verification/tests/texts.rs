use moviebay::config::{
    CodecConfig, Config, DatabaseConfig, FFmpegConfig, LibraryConfig, TmdbConfig,
};
use moviebay::scan::Scanner;
use moviebay::text::{i32_text, join, parse_i32, str_eq};
use moviebay::tmdb::types::{Configuration, Images};
use moviebay::tmdb::{configuration_url, search_url};
use std::sync::Arc;

fn settings() -> Config {
    Config {
        ffmpeg: FFmpegConfig {
            bin: "ffmpeg".to_owned(),
            codecs: vec![("*".to_owned(), CodecConfig { args: vec![] })],
        },
        library: LibraryConfig { movies: "/srv/movies".to_owned() },
        database: DatabaseConfig { name: "moviebay.db".to_owned() },
        tmdb: TmdbConfig { api_key: "abc".to_owned() },
    }
}

#[test]
fn numbers_are_read() {
    assert_eq!(Some(0), parse_i32("0"));
    assert_eq!(Some(5), parse_i32("5"));
    assert_eq!(Some(1990), parse_i32("1990"));
    assert_eq!(Some(7), parse_i32("+7"));
    assert_eq!(Some(-7), parse_i32("-7"));
    assert_eq!(Some(0), parse_i32("-0"));
    assert_eq!(Some(12), parse_i32("0000000000000000000012"));
    assert_eq!(Some(2147483647), parse_i32("2147483647"));
    assert_eq!(Some(-2147483648), parse_i32("-2147483648"));
}

#[test]
fn what_is_no_number_is_not_read() {
    assert_eq!(None, parse_i32(""));
    assert_eq!(None, parse_i32("-"));
    assert_eq!(None, parse_i32("+"));
    assert_eq!(None, parse_i32("+-1"));
    assert_eq!(None, parse_i32("1-"));
    assert_eq!(None, parse_i32(" 1"));
    assert_eq!(None, parse_i32("1 "));
    assert_eq!(None, parse_i32("12a"));
    assert_eq!(None, parse_i32("1.5"));
    assert_eq!(None, parse_i32("2147483648"));
    assert_eq!(None, parse_i32("-2147483649"));
    assert_eq!(None, parse_i32("99999999999999999999999999"));
    assert_eq!(None, parse_i32("\u{0663}"));
    assert_eq!(None, parse_i32("1\u{00e9}"));
}

#[test]
fn reading_agrees_with_the_standard_library() {
    for s in ["0", "-1", "+1", "007", "", "-", "x", "2147483647", "2147483648", "-2147483648"] {
        assert_eq!(s.parse::<i32>().ok(), parse_i32(s));
    }
}

#[test]
fn numbers_are_written() {
    assert_eq!("0", i32_text(0));
    assert_eq!("7", i32_text(7));
    assert_eq!("10", i32_text(10));
    assert_eq!("2004", i32_text(2004));
    assert_eq!("-1", i32_text(-1));
    assert_eq!("2147483647", i32_text(i32::MAX));
    assert_eq!("-2147483648", i32_text(i32::MIN));
    for n in [0, 9, 10, 99, 100, 101, -5, -10, 65536, i32::MAX, i32::MIN] {
        assert_eq!(Some(n), parse_i32(&i32_text(n)));
    }
}

#[test]
fn texts_are_compared() {
    assert!(str_eq("", ""));
    assert!(str_eq("%i", "%i"));
    assert!(!str_eq("%i", "%j"));
    assert!(!str_eq("%i", "%"));
    assert!(!str_eq("", "a"));
    assert!(str_eq("h\u{00e9}", "h\u{00e9}"));
    assert!(!str_eq("h\u{00e9}", "h\u{00e8}"));
}

#[test]
fn texts_are_joined() {
    assert_eq!("", join(&vec![], ","));
    assert_eq!("a", join(&vec!["a"], ","));
    assert_eq!("a,b,c", join(&vec!["a", "b", "c"], ","));
    assert_eq!("a, , b", join(&vec!["a", "", "b"], ", "));
}

#[test]
fn the_addresses_of_the_catalog() {
    let config = settings();
    assert_eq!(
        "https://api.themoviedb.org/3/configuration?api_key=abc",
        configuration_url(&config.tmdb)
    );
    assert_eq!(
        "https://api.themoviedb.org/3/search/movie?api_key=abc&language=en&query=Collateral&year=2004",
        search_url(&config.tmdb, "Collateral", 2004)
    );
    assert_eq!(
        "https://api.themoviedb.org/3/search/movie?api_key=abc&language=en&query=&year=-1",
        search_url(&config.tmdb, "", -1)
    );
}

#[test]
fn what_the_catalog_answers_is_kept() {
    let configuration = Configuration {
        images: Images {
            base_url: "http://image.tmdb.org/t/p/".to_owned(),
            secure_base_url: "https://image.tmdb.org/t/p/".to_owned(),
            backdrop_sizes: vec!["w300".to_owned()],
            logo_sizes: vec![],
            poster_sizes: vec!["w92".to_owned(), "w500".to_owned()],
            profile_sizes: vec![],
            still_sizes: vec![],
        },
    };
    assert_eq!(2, configuration.images.poster_sizes.len());
    assert_eq!("https://image.tmdb.org/t/p/", configuration.images.secure_base_url);
}

#[test]
fn the_settings_are_shared() {
    let shared = settings().into_shared();
    let other = Arc::clone(&shared);
    assert_eq!("/srv/movies", other.library.movies);
    assert_eq!("moviebay.db", shared.database.name);
}

#[test]
fn movies_are_recognized_by_their_names() {
    let mut scanner = Scanner::new(Arc::new(settings()));
    assert_eq!("/srv/movies", scanner.root());
    scanner.visit("Marked for Death (1990).mkv", "/srv/movies/Marked for Death (1990).mkv");
    scanner.visit("notes.txt", "/srv/movies/notes.txt");
    scanner.visit("  Heat  (1995)", "/srv/movies/a/  Heat  (1995)");
    scanner.visit("(2001)", "/srv/movies/(2001)");
    scanner.visit("Long (99999999999)", "/srv/movies/Long (99999999999)");
    scanner.visit("Dots. (1999)", "/srv/movies/Dots. (1999)");
    let movies = scanner.movies();
    assert_eq!(3, movies.len());
    assert_eq!("Marked for Death", movies[0].title);
    assert_eq!(1990, movies[0].release_year);
    assert_eq!("/srv/movies/Marked for Death (1990).mkv", movies[0].path);
    assert_eq!("/c6WuCykIy8GAsitJOTk1DEga1ML.jpg", movies[0].poster_path);
    assert_eq!("/qDVdTL1KqGmGLGsy7UPA3vksku7.jpg", movies[0].backdrop_path);
    assert_eq!("Heat", movies[1].title);
    assert_eq!(1995, movies[1].release_year);
    assert_eq!("", movies[2].title);
    assert_eq!(2001, movies[2].release_year);
}

#[test]
fn a_file_becomes_an_entry() {
    let mut scanner = Scanner::new(Arc::new(settings()));
    scanner.visit("Heat (1995).mkv", "/srv/movies/Heat (1995).mkv");
    let file = scanner.movies()[0].clone();
    let movie = file.to_movie();
    assert_eq!(0, movie.id);
    assert_eq!(0, movie.tmdb_id);
    assert_eq!("Heat", movie.title);
    assert_eq!("", movie.overview);
    assert_eq!(1995, movie.release_year);
    assert_eq!("/srv/movies/Heat (1995).mkv", movie.file_path);
    assert_eq!("/c6WuCykIy8GAsitJOTk1DEga1ML.jpg", movie.poster_path);
    assert_eq!("/qDVdTL1KqGmGLGsy7UPA3vksku7.jpg", movie.backdrop_path);
}
