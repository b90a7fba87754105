use vstd::prelude::*;

verus! {

/// How clients of the serving layer authenticate.
#[derive(Clone, Debug)]
pub enum SubsonicAuth {
    /// No authentication is asked for.
    Disabled,
    UsernamePassword { username: String, password: String },
}

/// Where the catalog store lives: a directory holding its file, or memory.
#[derive(Clone, Debug)]
pub struct DatabaseOptions {
    pub path: Option<String>,
    pub in_memory: bool,
}

/// The orders and filters an album listing can ask for.
#[derive(Clone, Debug)]
pub enum GetSubsonicAlbumsListType {
    Random,
    Newest,
    Recent,
    Starred,
    AlphabeticalByName,
    AlphabeticalByArtist,
    ByYear { from_year: usize, to_year: usize },
    ByGenre { genre: String },
}

} // verus!
