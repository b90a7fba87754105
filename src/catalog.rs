use vstd::prelude::*;
use crate::ids::EntityId;
use crate::metadata::Timestamp;

verus! {

/// A folder of the library; the root folder has the nil identifier.
#[derive(Clone, Debug)]
pub struct DbFolder {
    pub folder_id: EntityId,
    pub parent_id: Option<EntityId>,
    pub name: String,
    pub cover_art_id: Option<EntityId>,
    pub created: Timestamp,
}

/// A file seen under a folder; `song_id` links it to the song made from it.
#[derive(Clone, Debug)]
pub struct DbFolderChild {
    pub folder_child_id: EntityId,
    pub folder_id: EntityId,
    pub path: String,
    pub name: String,
    pub song_id: Option<EntityId>,
    pub last_updated: Option<Timestamp>,
}

/// A file that could not be made into a song; it is skipped by later imports.
#[derive(Clone, Debug)]
pub struct DbFailedFolderChild {
    pub folder_child_id: EntityId,
    pub folder_id: EntityId,
    pub path: String,
}

#[derive(Clone, Debug)]
pub struct DbAlbum {
    pub album_id: EntityId,
    pub title: String,
    pub cover_art_id: Option<EntityId>,
}

#[derive(Clone, Debug)]
pub struct DbArtist {
    pub artist_id: EntityId,
    pub name: String,
    pub cover_art_id: Option<EntityId>,
    /// The artist's identifier in the metadata registry, once a match is known.
    pub musicbrainz_id: Option<String>,
}

#[derive(Clone, Debug)]
pub struct DbSong {
    pub song_id: EntityId,
    pub title: String,
    pub created: Timestamp,
    pub date: Option<Timestamp>,
    pub cover_art_id: Option<EntityId>,
    pub artist_id: Option<EntityId>,
    pub album_id: Option<EntityId>,
    pub content_type: Option<String>,
    pub suffix: Option<String>,
    pub size: Option<u32>,
    pub track_number: Option<u32>,
    pub disc_number: Option<u32>,
    /// The duration in whole seconds.
    pub duration: Option<u64>,
    pub bit_rate: Option<u32>,
    pub genre: Option<String>,
}

#[derive(Clone, Debug)]
pub struct DbCoverArt {
    pub cover_art_id: EntityId,
    pub data: Vec<u8>,
}

} // verus!
