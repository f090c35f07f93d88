//! The tracks and playlists loaded from the database, kept ordered by name,
//! and the results of the last search over them.
use vstd::prelude::*;
use std::collections::BTreeMap;
use vstd::std_specs::cmp::OrdSpec;
use crate::ordering::{insert_by_name, insert_sorted, sort_by_name, sorted_by_name, sorted_tracks};
use crate::search::{TrackSearch, listed_by, strategy_matches};
use crate::track::{Playlist, Track};

verus! {

broadcast use vstd::std_specs::btree::group_btree_axioms;

/// `tracks` with each of `added` inserted by name, in order.
pub open spec fn insert_all_by_name(tracks: Seq<Track>, added: Seq<Track>) -> Seq<Track>
    decreases added.len(),
{
    if added.len() == 0 {
        tracks
    } else {
        insert_by_name(insert_all_by_name(tracks, added.drop_last()), added.last())
    }
}

/// The tracks a search lists, in their order.
pub open spec fn search_results(tracks: Seq<Track>, search: TrackSearch) -> Seq<Track> {
    tracks.filter(|t: Track| listed_by(search, t.name@))
}

/// The tracks a search lists.
pub fn filter_tracks(tracks: &Vec<Track>, search: &TrackSearch) -> (listed: Vec<Track>)
    ensures
        listed@ == search_results(tracks@, *search),
{
    let mut listed: Vec<Track> = Vec::new();
    let mut i: usize = 0;
    while i < tracks.len()
        invariant
            i <= tracks.len(),
            listed@ == search_results(tracks@.take(i as int), *search),
        decreases tracks.len() - i,
    {
        proof {
            assert(tracks@.take(i + 1) =~= tracks@.take(i as int).push(tracks@[i as int]));
            tracks@.take(i as int).lemma_filter_push(tracks@[i as int], |t: Track| listed_by(*search, t.name@));
        }
        if search.accepts(tracks[i].name.as_str()) {
            listed.push(tracks[i].clone());
        }
        i = i + 1;
    }
    proof {
        assert(tracks@.take(tracks.len() as int) =~= tracks@);
    }
    listed
}

/// A search lists exactly the given tracks whose name it accepts: a track is
/// in the results iff it is one of the tracks and the search text is empty or
/// matches the track's name under the search's strategy. A track whose name
/// does not match is never listed, whatever its path or other fields.
pub proof fn lemma_search_lists_matching_names(tracks: Seq<Track>, search: TrackSearch, t: Track)
    ensures
        search_results(tracks, search).contains(t) <==> (tracks.contains(t) && (search.text@.len() == 0
            || strategy_matches(search.matcher.strategy(), search.text@, t.name@))),
        forall|i: int|
            0 <= i < search_results(tracks, search).len() ==> (search.text@.len() == 0
                || strategy_matches(
                search.matcher.strategy(),
                search.text@,
                (#[trigger] search_results(tracks, search)[i]).name@,
            )),
{
    let pred = |x: Track| listed_by(search, x.name@);
    #[allow(deprecated)]
    tracks.filter_lemma(pred);
    if search_results(tracks, search).contains(t) {
        tracks.lemma_filter_contains_rev(pred, t);
        let k = choose|k: int| 0 <= k < tracks.filter(pred).len() && tracks.filter(pred)[k] == t;
        assert(pred(tracks.filter(pred)[k]));
    }
    if tracks.contains(t) && (search.text@.len() == 0 || strategy_matches(
        search.matcher.strategy(),
        search.text@,
        t.name@,
    )) {
        let k = choose|k: int| 0 <= k < tracks.len() && tracks[k] == t;
        tracks.lemma_filter_contains(pred, k);
    }
}

/// An empty search lists every track, in the order given.
pub proof fn lemma_empty_search_lists_all(tracks: Seq<Track>, search: TrackSearch)
    requires
        search.text@.len() == 0,
    ensures
        search_results(tracks, search) == tracks,
    decreases tracks.len(),
{
    reveal_with_fuel(Seq::filter, 1);
    if tracks.len() > 0 {
        lemma_empty_search_lists_all(tracks.drop_last(), search);
        assert(tracks.drop_last().push(tracks.last()) =~= tracks);
    }
}

/// Inserting several tracks by name keeps a sorted list sorted and adds exactly them.
pub proof fn lemma_insert_all_sorted(tracks: Seq<Track>, added: Seq<Track>)
    requires
        sorted_by_name(tracks),
    ensures
        sorted_by_name(insert_all_by_name(tracks, added)),
        insert_all_by_name(tracks, added).to_multiset() == tracks.to_multiset().add(added.to_multiset()),
    decreases added.len(),
{
    if added.len() > 0 {
        lemma_insert_all_sorted(tracks, added.drop_last());
        crate::ordering::lemma_insert_by_name_sorted(
            insert_all_by_name(tracks, added.drop_last()),
            added.last(),
        );
        assert(added =~= added.drop_last().push(added.last()));
        vstd::seq_lib::to_multiset_build(added.drop_last(), added.last());
    } else {
        vstd::seq_lib::to_multiset_len(added);
        vstd::multiset::lemma_multiset_empty_len(added.to_multiset());
        assert(tracks.to_multiset().add(added.to_multiset()) =~= tracks.to_multiset());
    }
}

/// The loaded tracks, per playlist and in all, ordered by name.
#[derive(Debug)]
pub struct CacheContext {
    all_tracks: Vec<Track>,
    filtered_all_tracks: Option<Vec<Track>>,
    playlist_tracks: BTreeMap<u128, (Playlist, Vec<Track>)>,
    filtered_tracks: BTreeMap<u128, Vec<Track>>,
}

impl CacheContext {
    /// The tracks are ordered by name, in all and in each playlist, and each
    /// playlist is stored under its own identifier.
    pub closed spec fn well_formed(&self) -> bool {
        &&& sorted_by_name(self.all_tracks@)
        &&& forall|id: u128| #[trigger]
            self.playlist_tracks@.contains_key(id) ==> {
                &&& self.playlist_tracks@[id].0.id == id
                &&& sorted_by_name(self.playlist_tracks@[id].1@)
            }
    }

    /// All loaded tracks, ordered by name.
    pub closed spec fn all(&self) -> Seq<Track> {
        self.all_tracks@
    }

    /// The result of the last search over all tracks, if one was made.
    pub closed spec fn all_results(&self) -> Option<Seq<Track>> {
        match self.filtered_all_tracks {
            Some(v) => Some(v@),
            None => None,
        }
    }

    /// The loaded playlists, by identifier.
    pub closed spec fn playlist_of(&self, id: u128) -> Option<Playlist> {
        if self.playlist_tracks@.contains_key(id) {
            Some(self.playlist_tracks@[id].0)
        } else {
            None
        }
    }

    /// The tracks of a loaded playlist, ordered by name.
    pub closed spec fn tracks_of(&self, id: u128) -> Option<Seq<Track>> {
        if self.playlist_tracks@.contains_key(id) {
            Some(self.playlist_tracks@[id].1@)
        } else {
            None
        }
    }

    /// The identifiers of the loaded playlists.
    pub closed spec fn playlist_ids(&self) -> Set<u128> {
        self.playlist_tracks@.dom()
    }

    /// The result of the last search in a playlist, if one was made.
    pub closed spec fn results_of(&self, id: u128) -> Option<Seq<Track>> {
        if self.filtered_tracks@.contains_key(id) {
            Some(self.filtered_tracks@[id]@)
        } else {
            None
        }
    }

    /// Nothing loaded.
    pub fn new() -> (cache: Self)
        ensures
            cache.well_formed(),
            cache.all() == Seq::<Track>::empty(),
            cache.all_results() is None,
            cache.playlist_ids() == Set::<u128>::empty(),
            forall|id: u128| cache.results_of(id) is None,
    {
        CacheContext {
            all_tracks: Vec::new(),
            filtered_all_tracks: None,
            playlist_tracks: BTreeMap::new(),
            filtered_tracks: BTreeMap::new(),
        }
    }

    /// The tracks of a playlist (all tracks for `None`); `None` for a playlist
    /// that is not loaded.
    pub fn playlist_tracks(&self, playlist: Option<&Playlist>) -> (tracks: Option<&Vec<Track>>)
        requires
            self.well_formed(),
        ensures
            match playlist {
                Some(p) => match tracks {
                    Some(t) => self.tracks_of(p.id) == Some(t@),
                    None => self.tracks_of(p.id) is None,
                },
                None => tracks matches Some(t) && t@ == self.all(),
            },
            tracks matches Some(t) ==> sorted_by_name(t@),
    {
        match playlist {
            Some(p) => match self.playlist_tracks.get(&p.id) {
                Some(entry) => Some(&entry.1),
                None => None,
            },
            None => Some(&self.all_tracks),
        }
    }

    /// Replaces the tracks of a playlist (all tracks for `None`) with `tracks`
    /// ordered by name.
    pub fn set_playlist_tracks(&mut self, playlist: Option<Playlist>, tracks: Vec<Track>)
        requires
            old(self).well_formed(),
        ensures
            final(self).well_formed(),
            match playlist {
                Some(p) => {
                    &&& final(self).tracks_of(p.id) == Some(sort_by_name(tracks@))
                    &&& final(self).playlist_of(p.id) == Some(p)
                    &&& final(self).playlist_ids() == old(self).playlist_ids().insert(p.id)
                    &&& final(self).all() == old(self).all()
                    &&& forall|id: u128| id != p.id ==> {
                        &&& #[trigger] final(self).tracks_of(id) == old(self).tracks_of(id)
                        &&& final(self).playlist_of(id) == old(self).playlist_of(id)
                    }
                },
                None => {
                    &&& final(self).all() == sort_by_name(tracks@)
                    &&& final(self).playlist_ids() == old(self).playlist_ids()
                    &&& forall|id: u128| {
                        &&& #[trigger] final(self).tracks_of(id) == old(self).tracks_of(id)
                        &&& final(self).playlist_of(id) == old(self).playlist_of(id)
                    }
                },
            },
            final(self).all_results() == old(self).all_results(),
            forall|id: u128| #[trigger] final(self).results_of(id) == old(self).results_of(id),
    {
        let sorted = sorted_tracks(tracks);
        match playlist {
            Some(p) => {
                let id = p.id;
                self.playlist_tracks.insert(id, (p, sorted));
            },
            None => {
                self.all_tracks = sorted;
            },
        }
    }

    /// Adds tracks, each inserted by name, to a playlist (if given; an unknown
    /// playlist starts out empty) and to all tracks.
    pub fn add_tracks_to_playlist(&mut self, playlist: Option<&Playlist>, tracks: Vec<Track>)
        requires
            old(self).well_formed(),
        ensures
            final(self).well_formed(),
            final(self).all() == insert_all_by_name(old(self).all(), tracks@),
            match playlist {
                Some(p) => {
                    &&& final(self).tracks_of(p.id) == Some(
                        insert_all_by_name(
                            match old(self).tracks_of(p.id) {
                                Some(t) => t,
                                None => Seq::<Track>::empty(),
                            },
                            tracks@,
                        ),
                    )
                    &&& final(self).playlist_of(p.id) == match old(self).playlist_of(p.id) {
                        Some(q) => Some(q),
                        None => Some(*p),
                    }
                    &&& final(self).playlist_ids() == old(self).playlist_ids().insert(p.id)
                    &&& forall|id: u128| id != p.id ==> {
                        &&& #[trigger] final(self).tracks_of(id) == old(self).tracks_of(id)
                        &&& final(self).playlist_of(id) == old(self).playlist_of(id)
                    }
                },
                None => {
                    &&& final(self).playlist_ids() == old(self).playlist_ids()
                    &&& forall|id: u128| {
                        &&& #[trigger] final(self).tracks_of(id) == old(self).tracks_of(id)
                        &&& final(self).playlist_of(id) == old(self).playlist_of(id)
                    }
                },
            },
            final(self).all_results() == old(self).all_results(),
            forall|id: u128| #[trigger] final(self).results_of(id) == old(self).results_of(id),
    {
        if let Some(p) = playlist {
            let (owner, mut list) = match self.playlist_tracks.remove(&p.id) {
                Some(entry) => entry,
                None => (p.clone(), Vec::new()),
            };
            let ghost start = list@;
            let mut i: usize = 0;
            while i < tracks.len()
                invariant
                    i <= tracks.len(),
                    list@ == insert_all_by_name(start, tracks@.take(i as int)),
                    sorted_by_name(list@),
                decreases tracks.len() - i,
            {
                proof {
                    assert(tracks@.take(i + 1).drop_last() =~= tracks@.take(i as int));
                }
                insert_sorted(&mut list, tracks[i].clone());
                i = i + 1;
            }
            proof {
                assert(tracks@.take(tracks.len() as int) =~= tracks@);
            }
            self.playlist_tracks.insert(p.id, (owner, list));
        }
        let ghost start_all = self.all_tracks@;
        let mut all: Vec<Track> = Vec::new();
        std::mem::swap(&mut all, &mut self.all_tracks);
        let mut j: usize = 0;
        while j < tracks.len()
            invariant
                j <= tracks.len(),
                all@ == insert_all_by_name(start_all, tracks@.take(j as int)),
                sorted_by_name(all@),
            decreases tracks.len() - j,
        {
            proof {
                assert(tracks@.take(j + 1).drop_last() =~= tracks@.take(j as int));
            }
            insert_sorted(&mut all, tracks[j].clone());
            j = j + 1;
        }
        proof {
            assert(tracks@.take(tracks.len() as int) =~= tracks@);
        }
        self.all_tracks = all;
    }

    /// Registers a playlist with no tracks (replacing any tracks it had).
    pub fn add_empty_playlist(&mut self, playlist: &Playlist)
        requires
            old(self).well_formed(),
        ensures
            final(self).well_formed(),
            final(self).tracks_of(playlist.id) == Some(Seq::<Track>::empty()),
            final(self).playlist_of(playlist.id) == Some(*playlist),
            final(self).playlist_ids() == old(self).playlist_ids().insert(playlist.id),
            final(self).all() == old(self).all(),
            forall|id: u128| id != playlist.id ==> {
                &&& #[trigger] final(self).tracks_of(id) == old(self).tracks_of(id)
                &&& final(self).playlist_of(id) == old(self).playlist_of(id)
            },
            final(self).all_results() == old(self).all_results(),
            forall|id: u128| #[trigger] final(self).results_of(id) == old(self).results_of(id),
    {
        self.playlist_tracks.insert(playlist.id, (playlist.clone(), Vec::new()));
    }

    /// The tracks to show for a playlist (all tracks for `None`): the result of
    /// the last search if there was one, else the tracks themselves; nothing for
    /// an unknown playlist.
    pub fn filtered_tracks(&self, playlist: Option<&Playlist>) -> (tracks: &[Track])
        ensures
            tracks@ == match playlist {
                Some(p) => match self.results_of(p.id) {
                    Some(r) => r,
                    None => match self.tracks_of(p.id) {
                        Some(t) => t,
                        None => Seq::<Track>::empty(),
                    },
                },
                None => match self.all_results() {
                    Some(r) => r,
                    None => self.all(),
                },
            },
    {
        match playlist {
            Some(p) => {
                if let Some(filtered) = self.filtered_tracks.get(&p.id) {
                    filtered.as_slice()
                } else if let Some(entry) = self.playlist_tracks.get(&p.id) {
                    entry.1.as_slice()
                } else {
                    &[]
                }
            },
            None => match &self.filtered_all_tracks {
                Some(filtered) => filtered.as_slice(),
                None => self.all_tracks.as_slice(),
            },
        }
    }

    /// The loaded playlists, in order of their identifiers.
    pub fn playlists(&self) -> (playlists: Vec<Playlist>)
        ensures
            exists|ids: Seq<u128>|
                {
                    &&& forall|i: int, j: int| 0 <= i < j < ids.len() ==> #[trigger] ids[i] < #[trigger] ids[j]
                    &&& ids.to_set() == self.playlist_ids()
                    &&& playlists@.len() == ids.len()
                    &&& forall|i: int| 0 <= i < ids.len() ==> Some(#[trigger] playlists@[i]) == self.playlist_of(ids[i])
                },
    {
        let mut out: Vec<Playlist> = Vec::new();
        let values = self.playlist_tracks.values();
        let ghost ids = choose|ids: Seq<u128>|
            {
                &&& vstd::std_specs::btree::increasing_seq(ids)
                &&& ids.to_set() == self.playlist_tracks@.dom()
                &&& ids.no_duplicates()
                &&& vstd::std_specs::iter::IteratorSpec::remaining(&values) == ids.map(
                    |i: int, k| &self.playlist_tracks@[k],
                )
            };
        for entry in it: values
            invariant
                out@.len() == it.index(),
                it.seq() == ids.map(|i: int, k| &self.playlist_tracks@[k]),
                forall|i: int| 0 <= i < it.index() ==> #[trigger] out@[i] == it.seq()[i].0,
        {
            out.push(entry.0.clone());
        }
        proof {
            vstd::std_specs::btree::axiom_increasing_seq_meaning::<u128>(ids);
            assert forall|i: int, j: int| 0 <= i < j < ids.len() implies #[trigger] ids[i] < #[trigger] ids[j] by {
                assert(ids[i].cmp_spec(&ids[j]) is Less);
            }
            assert forall|i: int| 0 <= i < ids.len() implies Some(#[trigger] out@[i]) == self.playlist_of(ids[i]) by {
                assert(ids.to_set().contains(ids[i]));
            }
        }
        out
    }

    /// Runs a search over the tracks of a playlist (all tracks for `None`) and
    /// keeps the tracks it lists as the playlist's search result, which is
    /// returned. `None`, and nothing changes, for an unknown playlist.
    pub fn filter_with(&mut self, playlist: &Option<Playlist>, search: &TrackSearch) -> (results: Option<&Vec<Track>>)
        requires
            old(self).well_formed(),
        ensures
            final(self).well_formed(),
            final(self).all() == old(self).all(),
            forall|id: u128| {
                &&& #[trigger] final(self).tracks_of(id) == old(self).tracks_of(id)
                &&& final(self).playlist_of(id) == old(self).playlist_of(id)
            },
            final(self).playlist_ids() == old(self).playlist_ids(),
            match playlist {
                Some(p) => match old(self).tracks_of(p.id) {
                    Some(t) => {
                        &&& final(self).results_of(p.id) == Some(search_results(t, *search))
                        &&& results matches Some(r) && r@ == search_results(t, *search)
                        &&& final(self).all_results() == old(self).all_results()
                        &&& forall|id: u128| id != p.id ==> #[trigger] final(self).results_of(id) == old(self).results_of(id)
                    },
                    None => {
                        &&& results is None
                        &&& final(self).all_results() == old(self).all_results()
                        &&& forall|id: u128| #[trigger] final(self).results_of(id) == old(self).results_of(id)
                    },
                },
                None => {
                    &&& final(self).all_results() == Some(search_results(old(self).all(), *search))
                    &&& results matches Some(r) && r@ == search_results(old(self).all(), *search)
                    &&& forall|id: u128| #[trigger] final(self).results_of(id) == old(self).results_of(id)
                },
            },
    {
        match playlist {
            Some(p) => {
                let filtered = match self.playlist_tracks.get(&p.id) {
                    Some(entry) => filter_tracks(&entry.1, search),
                    None => {
                        return None;
                    },
                };
                self.filtered_tracks.insert(p.id, filtered);
                self.filtered_tracks.get(&p.id)
            },
            None => {
                let filtered = filter_tracks(&self.all_tracks, search);
                self.filtered_all_tracks = Some(filtered);
                self.filtered_all_tracks.as_ref()
            },
        }
    }
}

} // verus!
