//! The Movie Database, an outside catalog: where its answers are asked for
//! and what they hold.
pub mod types;

use crate::config::TmdbConfig;
use crate::text::{i32_text, written_int};
use vstd::prelude::*;
use vstd::string::StringExecFns;

verus! {

/// The address of the catalog's own settings, for the key `api_key`.
pub open spec fn configuration_address(api_key: Seq<char>) -> Seq<char> {
    "https://api.themoviedb.org/3/configuration?api_key="@ + api_key
}

/// The address of a search for the movie `name` of the year `year`.
pub open spec fn search_address(api_key: Seq<char>, name: Seq<char>, year: int) -> Seq<char> {
    "https://api.themoviedb.org/3/search/movie?api_key="@ + api_key + "&language=en&query="@
        + name + "&year="@ + written_int(year)
}

/// The address from which the catalog's settings are fetched.
pub fn configuration_url(config: &TmdbConfig) -> (url: String)
    ensures
        url@ == configuration_address(config.api_key@),
{
    let mut url = String::from_str("https://api.themoviedb.org/3/configuration?api_key=");
    url.append(config.api_key.as_str());
    url
}

/// The address from which a search for the movie `name` of the year `year`
/// is fetched. The name is put in as it is.
pub fn search_url(config: &TmdbConfig, name: &str, year: i32) -> (url: String)
    ensures
        url@ == search_address(config.api_key@, name@, year as int),
{
    let mut url = String::from_str("https://api.themoviedb.org/3/search/movie?api_key=");
    url.append(config.api_key.as_str());
    url.append("&language=en&query=");
    url.append(name);
    url.append("&year=");
    url.append(i32_text(year).as_str());
    url
}

} // verus!
