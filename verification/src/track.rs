//! Tracks and playlists as the library sees them: plain values standing for
//! the rows of the database.
use vstd::prelude::*;
use crate::text::{opt_string_eq, opt_view, str_eq};
use crate::time::TimeSpan;

verus! {

/// An audio track known to the library.
#[derive(Debug)]
pub struct Track {
    /// Identifier (the UUID's 128 bits).
    pub id: u128,
    /// Location of the audio file.
    pub path: String,
    /// Display name, derived from the file name.
    pub name: String,
    /// Content hash of the file.
    pub hash: Option<String>,
    /// Length of the track.
    pub duration: TimeSpan,
    pub valid: bool,
    /// Creation time, as stored in the database.
    pub created_at: String,
    /// Last update time, as stored in the database.
    pub updated_at: String,
}

/// A named playlist.
#[derive(Debug)]
pub struct Playlist {
    /// Identifier (the UUID's 128 bits).
    pub id: u128,
    pub name: String,
    pub created_at: String,
    pub updated_at: String,
}

/// Two tracks hold the same values in every field.
pub open spec fn same_track(a: Track, b: Track) -> bool {
    &&& a.id == b.id
    &&& a.path@ == b.path@
    &&& a.name@ == b.name@
    &&& opt_view(a.hash) == opt_view(b.hash)
    &&& a.duration.total_nanos() == b.duration.total_nanos()
    &&& a.valid == b.valid
    &&& a.created_at@ == b.created_at@
    &&& a.updated_at@ == b.updated_at@
}

/// Two playlists hold the same values in every field.
pub open spec fn same_playlist(a: Playlist, b: Playlist) -> bool {
    &&& a.id == b.id
    &&& a.name@ == b.name@
    &&& a.created_at@ == b.created_at@
    &&& a.updated_at@ == b.updated_at@
}

/// Two tracks share a content hash (both without one counts as sharing).
pub open spec fn same_hash(a: Track, b: Track) -> bool {
    opt_view(a.hash) == opt_view(b.hash)
}

impl Clone for Track {
    fn clone(&self) -> (copy: Self)
        ensures
            copy == *self,
    {
        let hash = match &self.hash {
            Some(h) => Some(h.clone()),
            None => None,
        };
        Track {
            id: self.id,
            path: self.path.clone(),
            name: self.name.clone(),
            hash,
            duration: self.duration,
            valid: self.valid,
            created_at: self.created_at.clone(),
            updated_at: self.updated_at.clone(),
        }
    }
}

impl Clone for Playlist {
    fn clone(&self) -> (copy: Self)
        ensures
            copy == *self,
    {
        Playlist {
            id: self.id,
            name: self.name.clone(),
            created_at: self.created_at.clone(),
            updated_at: self.updated_at.clone(),
        }
    }
}

impl Track {
    /// Whether two tracks hold the same values in every field.
    pub fn same_as(&self, other: &Track) -> (res: bool)
        ensures
            res == same_track(*self, *other),
    {
        self.id == other.id && str_eq(self.path.as_str(), other.path.as_str()) && str_eq(
            self.name.as_str(),
            other.name.as_str(),
        ) && opt_string_eq(&self.hash, &other.hash) && !self.duration.is_shorter_than(
            &other.duration,
        ) && !other.duration.is_shorter_than(&self.duration) && self.valid == other.valid
            && str_eq(self.created_at.as_str(), other.created_at.as_str()) && str_eq(
            self.updated_at.as_str(),
            other.updated_at.as_str(),
        )
    }

    /// Whether two tracks share a content hash.
    pub fn same_hash_as(&self, other: &Track) -> (res: bool)
        ensures
            res == same_hash(*self, *other),
    {
        opt_string_eq(&self.hash, &other.hash)
    }
}

/// Copies a list of tracks.
pub fn clone_tracks(tracks: &Vec<Track>) -> (copy: Vec<Track>)
    ensures
        copy@ == tracks@,
{
    let mut copy: Vec<Track> = Vec::new();
    let mut i: usize = 0;
    while i < tracks.len()
        invariant
            i <= tracks.len(),
            copy@ == tracks@.take(i as int),
        decreases tracks.len() - i,
    {
        copy.push(tracks[i].clone());
        assert(tracks@.take(i + 1) == tracks@.take(i as int).push(tracks@[i as int]));
        i = i + 1;
    }
    assert(tracks@.take(tracks.len() as int) == tracks@);
    copy
}

} // verus!
