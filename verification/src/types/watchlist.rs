//! The sources that are followed.

use vstd::prelude::*;
use crate::utils::string_map::StringMap;

verus! {

/// One followed source: the name it is searched by, its cover image, and its titles in other
/// forms, each under the kind of the form (`native`, `romaji` or `english`).
#[derive(Debug)]
pub struct WatchlistEntry {
    pub name: String,
    pub cover: String,
    pub other: StringMap<String>,
}

} // verus!
