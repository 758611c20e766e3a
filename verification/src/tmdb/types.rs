//! What the catalog answers, as far as it is kept.
use vstd::prelude::*;

verus! {

/// The catalog's own settings.
#[derive(Debug)]
pub struct Configuration {
    pub images: Images,
}

/// Where the catalog serves images from, and in which sizes.
#[derive(Debug)]
pub struct Images {
    pub base_url: String,
    pub secure_base_url: String,
    pub backdrop_sizes: Vec<String>,
    pub logo_sizes: Vec<String>,
    pub poster_sizes: Vec<String>,
    pub profile_sizes: Vec<String>,
    pub still_sizes: Vec<String>,
}

} // verus!
