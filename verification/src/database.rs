//! The messages exchanged with the database thread.
use vstd::prelude::*;
use crate::text::concat_strs;
use crate::track::{Playlist, Track};

verus! {

/// The database worker (its thread is started by the application).
#[derive(Debug, Clone, Copy)]
pub struct Database;

/// A request to the database thread.
#[derive(Debug, Clone)]
pub enum DatabaseCommand {
    /// All tracks to be added (by path), and the optional playlist they go into.
    InsertTracks(Vec<String>, Option<String>),
    /// Get all tracks within a playlist; all tracks for `None`.
    QueryTracks(Option<Playlist>),
    /// Create a new playlist with the specified name.
    InsertPlaylist(String),
    /// Get all the playlists.
    QueryPlaylists,
}

/// A failure reported by the database thread.
#[derive(Debug, Clone)]
pub enum DatabaseError {
    DuplicateTrack(String),
    DuplicatePlaylistTrack(String, Playlist),
    DuplicatePlaylist,
    DatabaseUnavailable,
    Unknown,
}

/// A result reported by the database thread.
#[derive(Debug, Clone)]
pub enum DatabaseEvent {
    /// A track was stored, in a playlist if given.
    InsertTrack(Track, Option<Playlist>),
    /// The tracks of a playlist (all tracks for `None`).
    QueryTracks(Vec<Track>, Option<Playlist>),
    InsertPlaylist(Playlist),
    QueryPlaylists(Vec<Playlist>),
}

/// The outcome of storing one track: the stored track is reported; when the
/// database returned no row, the track is a duplicate, of the playlist if one
/// was given, else of the general list.
pub fn track_insert_outcome(path: String, playlist: Option<Playlist>, stored: Option<Track>) -> (outcome: Result<DatabaseEvent, DatabaseError>)
    ensures
        match stored {
            Some(t) => outcome == Ok::<DatabaseEvent, DatabaseError>(DatabaseEvent::InsertTrack(t, playlist)),
            None => match playlist {
                Some(p) => outcome == Err::<DatabaseEvent, DatabaseError>(DatabaseError::DuplicatePlaylistTrack(path, p)),
                None => outcome == Err::<DatabaseEvent, DatabaseError>(DatabaseError::DuplicateTrack(path)),
            },
        },
{
    match stored {
        Some(track) => Ok(DatabaseEvent::InsertTrack(track, playlist)),
        None => match playlist {
            Some(p) => Err(DatabaseError::DuplicatePlaylistTrack(path, p)),
            None => Err(DatabaseError::DuplicateTrack(path)),
        },
    }
}

/// The message shown for an error.
pub open spec fn error_message(error: DatabaseError) -> Seq<char> {
    match error {
        DatabaseError::DuplicateTrack(path) => "Track "@ + path@ + " already exists in general playlist"@,
        DatabaseError::DuplicatePlaylistTrack(path, playlist) => "Track "@ + path@
            + " already exists in playlist "@ + playlist.name@,
        DatabaseError::DuplicatePlaylist => "Playlist already exists"@,
        DatabaseError::DatabaseUnavailable => "Database is unavailable"@,
        DatabaseError::Unknown => "Unknown error"@,
    }
}

impl DatabaseError {
    /// Whether the error reports a track that was stored already (the errors
    /// the application knows how to handle).
    pub fn is_duplicate(&self) -> (res: bool)
        ensures
            res == (*self is DuplicateTrack || *self is DuplicatePlaylistTrack),
    {
        match self {
            DatabaseError::DuplicateTrack(_) | DatabaseError::DuplicatePlaylistTrack(_, _) => true,
            _ => false,
        }
    }

    /// The message shown for this error.
    pub fn message(&self) -> (text: String)
        ensures
            text@ == error_message(*self),
    {
        proof {
            reveal_strlit("");
            assert("Playlist already exists"@ + ""@ =~= "Playlist already exists"@);
            assert("Database is unavailable"@ + ""@ =~= "Database is unavailable"@);
            assert("Unknown error"@ + ""@ =~= "Unknown error"@);
        }
        match self {
            DatabaseError::DuplicateTrack(path) => {
                let s = concat_strs("Track ", path.as_str());
                concat_strs(s.as_str(), " already exists in general playlist")
            },
            DatabaseError::DuplicatePlaylistTrack(path, playlist) => {
                let s = concat_strs("Track ", path.as_str());
                let s = concat_strs(s.as_str(), " already exists in playlist ");
                concat_strs(s.as_str(), playlist.name.as_str())
            },
            DatabaseError::DuplicatePlaylist => concat_strs("Playlist already exists", ""),
            DatabaseError::DatabaseUnavailable => concat_strs("Database is unavailable", ""),
            DatabaseError::Unknown => concat_strs("Unknown error", ""),
        }
    }
}

} // verus!
