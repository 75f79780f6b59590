//! Plain descriptions of the files that an entry names.

use vstd::prelude::*;

verus! {

/// A path for each platform family, each of them optional.
#[derive(Debug, PartialEq, Eq)]
pub struct FilePath {
    pub windows: Option<String>,
    pub unix: Option<String>,
    pub mac: Option<String>,
    pub linux: Option<String>,
}

/// One file, or several.
#[derive(Debug, PartialEq, Eq)]
pub enum Files {
    Single(String),
    Multiple(Vec<String>),
}

/// A named entry and the files that belong to it.
#[derive(Debug, PartialEq, Eq)]
pub struct ConfigEntry {
    pub name: String,
    pub files: Option<Files>,
}

} // verus!
