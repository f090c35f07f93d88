//! The tracks and playlists loaded into memory, each kept once (by
//! identifier) and ordered by name.
use vstd::prelude::*;
use std::collections::BTreeSet;
use crate::ordering::{Named, sort_by_name, sorted_tracks};
use crate::track::{Playlist, Track, clone_tracks};

verus! {

broadcast use vstd::std_specs::btree::group_btree_axioms;

/// The identifiers of the tracks.
pub open spec fn track_ids(tracks: Seq<Track>) -> Set<u128> {
    tracks.map_values(|t: Track| t.id).to_set()
}

/// The identifiers of the playlists.
pub open spec fn playlist_ids(playlists: Seq<Playlist>) -> Set<u128> {
    playlists.map_values(|p: Playlist| p.id).to_set()
}

/// Collects the identifiers of the tracks.
fn collect_track_ids(tracks: &Vec<Track>) -> (ids: BTreeSet<u128>)
    ensures
        ids@ == track_ids(tracks@),
{
    let mut ids: BTreeSet<u128> = BTreeSet::new();
    let mut i: usize = 0;
    while i < tracks.len()
        invariant
            i <= tracks.len(),
            ids@ == track_ids(tracks@.take(i as int)),
        decreases tracks.len() - i,
    {
        ids.insert(tracks[i].id);
        proof {
            let f = |t: Track| t.id;
            assert(tracks@.take(i + 1).map_values(f) =~= tracks@.take(i as int).map_values(f).push(
                tracks@[i as int].id,
            ));
            let prefix = tracks@.take(i as int).map_values(f);
            Seq::<u128>::lemma_to_set_insert_commutes(prefix, tracks@[i as int].id);
            assert(prefix.push(tracks@[i as int].id) =~= prefix + seq![tracks@[i as int].id]);
        }
        i = i + 1;
    }
    proof {
        assert(tracks@.take(tracks.len() as int) =~= tracks@);
    }
    ids
}

/// Collects the identifiers of the playlists.
fn collect_playlist_ids(playlists: &Vec<Playlist>) -> (ids: BTreeSet<u128>)
    ensures
        ids@ == playlist_ids(playlists@),
{
    let mut ids: BTreeSet<u128> = BTreeSet::new();
    let mut i: usize = 0;
    while i < playlists.len()
        invariant
            i <= playlists.len(),
            ids@ == playlist_ids(playlists@.take(i as int)),
        decreases playlists.len() - i,
    {
        ids.insert(playlists[i].id);
        proof {
            let f = |p: Playlist| p.id;
            assert(playlists@.take(i + 1).map_values(f) =~= playlists@.take(i as int).map_values(
                f,
            ).push(playlists@[i as int].id));
            let prefix = playlists@.take(i as int).map_values(f);
            Seq::<u128>::lemma_to_set_insert_commutes(prefix, playlists@[i as int].id);
            assert(prefix.push(playlists@[i as int].id) =~= prefix + seq![playlists@[i as int].id]);
        }
        i = i + 1;
    }
    proof {
        assert(playlists@.take(playlists.len() as int) =~= playlists@);
    }
    ids
}

/// The loaded tracks, ordered by name, with the set of their identifiers.
#[derive(Debug)]
pub struct LoadedTracksContext {
    tracks: Vec<Track>,
    ids: BTreeSet<u128>,
    filtered: Vec<Track>,
}

impl LoadedTracksContext {
    /// The loaded tracks.
    pub closed spec fn list(&self) -> Seq<Track> {
        self.tracks@
    }

    /// The identifiers that count as loaded.
    pub closed spec fn id_set(&self) -> Set<u128> {
        self.ids@
    }

    /// The tracks last listed by a search.
    pub closed spec fn filtered_list(&self) -> Seq<Track> {
        self.filtered@
    }

    pub fn new() -> (ctx: Self)
        ensures
            ctx.list() == Seq::<Track>::empty(),
            ctx.id_set() == Set::<u128>::empty(),
            ctx.filtered_list() == Seq::<Track>::empty(),
    {
        LoadedTracksContext { tracks: Vec::new(), ids: BTreeSet::new(), filtered: Vec::new() }
    }

    /// Replaces the loaded tracks, ordering them by name.
    pub fn set(&mut self, tracks: Vec<Track>)
        ensures
            final(self).list() == sort_by_name(tracks@),
            final(self).id_set() == track_ids(tracks@),
            final(self).filtered_list() == old(self).filtered_list(),
    {
        self.ids = collect_track_ids(&tracks);
        self.tracks = sorted_tracks(tracks);
    }

    /// Adds a track unless one with its identifier is loaded already; the list
    /// is ordered by name again.
    pub fn add(&mut self, track: &Track)
        ensures
            old(self).id_set().contains(track.id) ==> {
                &&& final(self).list() == old(self).list()
                &&& final(self).id_set() == old(self).id_set()
            },
            !old(self).id_set().contains(track.id) ==> {
                &&& final(self).list() == sort_by_name(old(self).list().push(*track))
                &&& final(self).id_set() == old(self).id_set().insert(track.id)
            },
            final(self).filtered_list() == old(self).filtered_list(),
    {
        if self.ids.insert(track.id) {
            let mut tracks = clone_tracks(&self.tracks);
            tracks.push(track.clone());
            self.tracks = sorted_tracks(tracks);
        }
    }

    /// Removes the track with this identifier; returns whether it was loaded.
    pub fn remove(&mut self, id: &u128) -> (removed: bool)
        ensures
            removed == old(self).id_set().contains(*id),
            final(self).id_set() == old(self).id_set().remove(*id),
            removed ==> match first_with_id(old(self).list(), *id) {
                Some(pos) => final(self).list() == old(self).list().remove(pos),
                None => final(self).list() == old(self).list(),
            },
            !removed ==> final(self).list() == old(self).list(),
            final(self).filtered_list() == old(self).filtered_list(),
    {
        if self.ids.remove(id) {
            let mut pos: usize = 0;
            while pos < self.tracks.len()
                invariant
                    pos <= self.tracks.len(),
                    self.tracks@ == old(self).tracks@,
                    self.ids@ == old(self).ids@.remove(*id),
                    self.filtered@ == old(self).filtered@,
                    old(self).ids@.contains(*id),
                    forall|k: int| 0 <= k < pos ==> (#[trigger] self.tracks@[k]).id != *id,
                decreases self.tracks.len() - pos,
            {
                if self.tracks[pos].id == *id {
                    proof {
                        let tr = old(self).tracks@;
                        assert(exists|k: int| 0 <= k < tr.len() && tr[k].id == *id);
                        let k = choose|k: int|
                            0 <= k < tr.len() && tr[k].id == *id && forall|j: int|
                                0 <= j < k ==> (#[trigger] tr[j]).id != *id;
                        assert(0 <= pos < tr.len() && tr[pos as int].id == *id && forall|j: int|
                            0 <= j < pos ==> (#[trigger] tr[j]).id != *id);
                        if k < pos {
                            assert(tr[k].id != *id);
                        }
                        if k > pos {
                            assert(tr[pos as int].id != *id);
                        }
                        assert(first_with_id(tr, *id) == Some(pos as int));
                    }
                    self.tracks.remove(pos);
                    return true;
                }
                pos = pos + 1;
            }
            proof {
                assert(!exists|k: int| 0 <= k < self.tracks@.len() && self.tracks@[k].id == *id);
            }
            true
        } else {
            false
        }
    }

    /// Replaces the tracks last listed by a search.
    pub fn set_filtered(&mut self, filtered: Vec<Track>)
        ensures
            final(self).filtered_list() == filtered@,
            final(self).list() == old(self).list(),
            final(self).id_set() == old(self).id_set(),
    {
        self.filtered = filtered;
    }

    /// The tracks last listed by a search.
    pub fn filtered(&self) -> (filtered: &Vec<Track>)
        ensures
            filtered@ == self.filtered_list(),
    {
        &self.filtered
    }
}

/// The position of the first track with this identifier.
pub open spec fn first_with_id(tracks: Seq<Track>, id: u128) -> Option<int> {
    if exists|k: int| 0 <= k < tracks.len() && tracks[k].id == id {
        Some(
            choose|k: int|
                0 <= k < tracks.len() && tracks[k].id == id && forall|j: int|
                    0 <= j < k ==> (#[trigger] tracks[j]).id != id,
        )
    } else {
        None
    }
}

/// The loaded playlists, ordered by name, with the set of their identifiers.
#[derive(Debug)]
pub struct LoadedPlaylistsContext {
    playlists: Vec<Playlist>,
    ids: BTreeSet<u128>,
}

impl LoadedPlaylistsContext {
    /// The loaded playlists.
    pub closed spec fn list(&self) -> Seq<Playlist> {
        self.playlists@
    }

    /// The identifiers that count as loaded.
    pub closed spec fn id_set(&self) -> Set<u128> {
        self.ids@
    }

    pub fn new() -> (ctx: Self)
        ensures
            ctx.list() == Seq::<Playlist>::empty(),
            ctx.id_set() == Set::<u128>::empty(),
    {
        LoadedPlaylistsContext { playlists: Vec::new(), ids: BTreeSet::new() }
    }

    /// Replaces the loaded playlists, ordering them by name.
    pub fn set(&mut self, playlists: Vec<Playlist>)
        ensures
            final(self).list() == sort_by_name(playlists@),
            final(self).id_set() == playlist_ids(playlists@),
    {
        self.ids = collect_playlist_ids(&playlists);
        self.playlists = sorted_tracks(playlists);
    }

    /// Adds a playlist unless one with its identifier is loaded already; the
    /// list is ordered by name again.
    pub fn add(&mut self, playlist: &Playlist)
        ensures
            old(self).id_set().contains(playlist.id) ==> {
                &&& final(self).list() == old(self).list()
                &&& final(self).id_set() == old(self).id_set()
            },
            !old(self).id_set().contains(playlist.id) ==> {
                &&& final(self).list() == sort_by_name(old(self).list().push(*playlist))
                &&& final(self).id_set() == old(self).id_set().insert(playlist.id)
            },
    {
        if self.ids.insert(playlist.id) {
            let mut playlists = clone_playlists(&self.playlists);
            playlists.push(playlist.clone());
            self.playlists = sorted_tracks(playlists);
        }
    }
}

/// Copies a list of playlists.
fn clone_playlists(playlists: &Vec<Playlist>) -> (copy: Vec<Playlist>)
    ensures
        copy@ == playlists@,
{
    let mut copy: Vec<Playlist> = Vec::new();
    let mut i: usize = 0;
    while i < playlists.len()
        invariant
            i <= playlists.len(),
            copy@ == playlists@.take(i as int),
        decreases playlists.len() - i,
    {
        copy.push(playlists[i].duplicate());
        assert(playlists@.take(i + 1) == playlists@.take(i as int).push(playlists@[i as int]));
        i = i + 1;
    }
    assert(playlists@.take(playlists.len() as int) == playlists@);
    copy
}

/// Everything loaded into memory.
#[derive(Debug)]
pub struct LoadedContext {
    pub tracks: LoadedTracksContext,
    pub playlists: LoadedPlaylistsContext,
}

impl LoadedContext {
    pub fn new() -> (ctx: Self)
        ensures
            ctx.tracks.list() == Seq::<Track>::empty(),
            ctx.playlists.list() == Seq::<Playlist>::empty(),
    {
        LoadedContext { tracks: LoadedTracksContext::new(), playlists: LoadedPlaylistsContext::new() }
    }

    /// A copy of the loaded tracks.
    pub fn tracks(&self) -> (tracks: Vec<Track>)
        ensures
            tracks@ == self.tracks.list(),
    {
        clone_tracks(&self.tracks.tracks)
    }

    /// A copy of the loaded playlists.
    pub fn playlists(&self) -> (playlists: Vec<Playlist>)
        ensures
            playlists@ == self.playlists.list(),
    {
        clone_playlists(&self.playlists.playlists)
    }
}

} // verus!
