//! The application state shared by the components, and the decisions that
//! span several parts of it.
use vstd::prelude::*;
use crate::autoplay::{AutoplayType, PlayDirection, label_of};
use crate::cache::CacheContext;
use crate::database::{DatabaseError, DatabaseEvent};
use crate::latency::LatencyContext;
use crate::playback::{AutoplayStep, PlaybackContext, PlaylistState, SelectedTrackContext};
use crate::processing::ProcessingContext;
use crate::text::concat_strs;
use crate::track::{Playlist, Track, same_track};
use crate::ui::{UIContext, UIPlaylistContext, UIVisibilityContext};

verus! {

/// What a double click on a track row asks of the player.
#[derive(Debug, Clone)]
pub enum RowPlay {
    /// The row is the selected track: pause or resume it.
    Toggle,
    /// Start playing this track.
    Start(Track),
}

/// The application state.
#[derive(Debug)]
pub struct Context {
    /// All the tracks and playlists that have been loaded into memory from the database.
    pub cache: CacheContext,
    /// The selected track and playlist, autoplay, and the progress through the track.
    pub playback: PlaybackContext,
    /// What's currently being shown from the perspective of the UI.
    pub ui: UIContext,
    /// Background jobs that are actively processing.
    pub processing: ProcessingContext,
    /// Main thread UI render latency data.
    pub latency: LatencyContext,
}

/// The tracks a playlist had when autoplay entered it (none if it is not loaded).
pub open spec fn loaded_tracks_of(cache: CacheContext, id: u128) -> Seq<Track> {
    match cache.tracks_of(id) {
        Some(t) => t,
        None => Seq::<Track>::empty(),
    }
}

/// The line describing autoplay: the playlist it runs through ("All tracks"
/// outside one), preceded by the rule unless it is plain forward iteration.
pub open spec fn autoplay_status(autoplay: AutoplayType, playlist_name: Option<Seq<char>>) -> Seq<char> {
    let scope = match playlist_name {
        Some(name) => name,
        None => "All tracks"@,
    };
    if autoplay == AutoplayType::Iterative(PlayDirection::Forward) {
        "Autoplay: "@ + scope
    } else {
        "Autoplay "@ + label_of(autoplay) + ": "@ + scope
    }
}

/// The line describing autoplay, for the playlist autoplay runs through.
pub fn autoplay_status_text(autoplay: &AutoplayType, playlist: Option<&Playlist>) -> (text: String)
    ensures
        text@ == autoplay_status(
            *autoplay,
            match playlist {
                Some(p) => Some(p.name@),
                None => None,
            },
        ),
{
    let scope: &str = match playlist {
        Some(p) => p.name.as_str(),
        None => "All tracks",
    };
    match autoplay {
        AutoplayType::Iterative(PlayDirection::Forward) => concat_strs("Autoplay: ", scope),
        _ => {
            let s = concat_strs("Autoplay ", autoplay.label());
            let s = concat_strs(s.as_str(), ": ");
            concat_strs(s.as_str(), scope)
        },
    }
}

/// The errors the application knows how to handle: duplicate tracks.
pub open spec fn handled_error(event: Result<DatabaseEvent, DatabaseError>) -> bool {
    event matches Err(e) ==> (e is DuplicateTrack || e is DuplicatePlaylistTrack)
}

/// The processing count after one job finished.
pub open spec fn finished_one(count: nat) -> nat {
    if count == 0 {
        0
    } else {
        (count - 1) as nat
    }
}

impl Context {
    /// Nothing loaded, nothing selected, nothing shown.
    pub fn new() -> (ctx: Self)
        ensures
            ctx.cache.well_formed(),
            ctx.cache.all() == Seq::<Track>::empty(),
            ctx.cache.playlist_ids() == Set::<u128>::empty(),
            ctx.playback.selected_track is None,
            ctx.playback.selected_playlist.state() is None,
            ctx.ui.playlist.selected_playlist() is None,
            !ctx.ui.visibility.settings_shown(),
            ctx.processing@ == 0,
    {
        Context {
            cache: CacheContext::new(),
            playback: PlaybackContext::default(),
            ui: UIContext { playlist: UIPlaylistContext::new(), visibility: UIVisibilityContext::new() },
            processing: ProcessingContext::default(),
            latency: LatencyContext::new(),
        }
    }

    /// Moves autoplay on when a new track was requested, through the autoplay
    /// playlist or, outside a playlist, through all loaded tracks.
    pub fn select_new_track(&mut self) -> (step: AutoplayStep)
        requires
            old(self).cache.well_formed(),
        ensures
            final(self).cache == old(self).cache,
            final(self).ui == old(self).ui,
            final(self).processing == old(self).processing,
            ({
                let old_pb = old(self).playback;
                let new_pb = final(self).playback;
                crate::playback::autoplay_advanced(old_pb, new_pb, old(self).cache.all(), step)
            }),
    {
        let all = match self.cache.playlist_tracks(None) {
            Some(t) => t,
            None => {
                return AutoplayStep::Idle;
            },
        };
        self.playback.select_next_track(all)
    }

    /// A double click on row `row_index` showing `track`. On the selected
    /// track it toggles playback. Otherwise the track is selected and starts;
    /// autoplay moves into the playlist shown (if any), with the tracks it has
    /// now.
    pub fn toggle_row_play(&mut self, row_index: usize, track: &Track) -> (action: RowPlay)
        requires
            old(self).cache.well_formed(),
        ensures
            final(self).cache == old(self).cache,
            final(self).processing == old(self).processing,
            final(self).ui.visibility == old(self).ui.visibility,
            if old(self).playback.selected_track matches Some(s) && s.index == row_index && same_track(
                s.track,
                *track,
            ) {
                &&& action is Toggle
                &&& final(self).playback == old(self).playback
                &&& final(self).ui == old(self).ui
            } else {
                &&& action == RowPlay::Start(*track)
                &&& final(self).playback.selected_track == Some(
                    SelectedTrackContext { track: *track, index: row_index, playing: true },
                )
                &&& final(self).ui.playlist.autoplay_playlist() == old(
                    self,
                ).ui.playlist.selected_playlist()
                &&& final(self).ui.playlist.selected_playlist() == old(
                    self,
                ).ui.playlist.selected_playlist()
                &&& match old(self).ui.playlist.selected_playlist() {
                    Some(p) => final(self).playback.selected_playlist.state() matches Some(state)
                        && state.playlist_value() == p && state.track_list() == loaded_tracks_of(
                        old(self).cache,
                        p.id,
                    ),
                    None => final(self).playback.selected_playlist.state() is None,
                }
                &&& final(self).playback.selected_playlist.played() == old(
                    self,
                ).playback.selected_playlist.played()
                &&& final(self).playback.control == old(self).playback.control
                &&& final(self).playback.autoplay == old(self).playback.autoplay
            },
    {
        let is_selected_row = match &self.playback.selected_track {
            Some(s) => s.index == row_index && s.track.same_as(track),
            None => false,
        };
        if is_selected_row {
            return RowPlay::Toggle;
        }
        let selected_playlist = self.ui.playlist.selected();
        self.ui.playlist.set_autoplay(match &selected_playlist {
            Some(p) => Some(p.clone()),
            None => None,
        });
        match selected_playlist {
            Some(playlist) => {
                let tracks = match self.cache.playlist_tracks(Some(&playlist)) {
                    Some(t) => crate::track::clone_tracks(t),
                    None => Vec::new(),
                };
                self.playback.selected_playlist.set_playlist(Some(PlaylistState::new(playlist, tracks)));
            },
            None => {
                self.playback.selected_playlist.set_playlist(None);
            },
        }
        self.playback.select_track(Some(SelectedTrackContext::new(track.clone(), row_index, true)));
        RowPlay::Start(track.clone())
    }

    /// Applies a report of the database thread: stored and queried tracks and
    /// playlists go into the cache; a stored track, or one refused as a
    /// duplicate, finishes one processing job.
    pub fn handle_database_event(&mut self, event: Result<DatabaseEvent, DatabaseError>)
        requires
            old(self).cache.well_formed(),
            handled_error(event),
        ensures
            final(self).cache.well_formed(),
            final(self).playback == old(self).playback,
            final(self).ui == old(self).ui,
            final(self).cache.all_results() == old(self).cache.all_results(),
            forall|id: u128| #[trigger] final(self).cache.results_of(id) == old(self).cache.results_of(id),
            match event {
                Ok(DatabaseEvent::InsertTrack(track, playlist)) => {
                    &&& final(self).cache.all() == crate::cache::insert_all_by_name(
                        old(self).cache.all(),
                        seq![track],
                    )
                    &&& match playlist {
                        Some(p) => {
                            &&& final(self).cache.tracks_of(p.id) == Some(
                                crate::cache::insert_all_by_name(
                                    loaded_tracks_of(old(self).cache, p.id),
                                    seq![track],
                                ),
                            )
                            &&& final(self).cache.playlist_of(p.id) == match old(self).cache.playlist_of(p.id) {
                                Some(q) => Some(q),
                                None => Some(p),
                            }
                            &&& final(self).cache.playlist_ids() == old(self).cache.playlist_ids().insert(p.id)
                            &&& forall|id: u128| id != p.id ==> {
                                &&& #[trigger] final(self).cache.tracks_of(id) == old(self).cache.tracks_of(id)
                                &&& final(self).cache.playlist_of(id) == old(self).cache.playlist_of(id)
                            }
                        },
                        None => {
                            &&& final(self).cache.playlist_ids() == old(self).cache.playlist_ids()
                            &&& forall|id: u128| {
                                &&& #[trigger] final(self).cache.tracks_of(id) == old(self).cache.tracks_of(id)
                                &&& final(self).cache.playlist_of(id) == old(self).cache.playlist_of(id)
                            }
                        },
                    }
                    &&& final(self).processing@ == finished_one(old(self).processing@)
                },
                Ok(DatabaseEvent::QueryTracks(tracks, playlist)) => {
                    &&& match playlist {
                        Some(p) => {
                            &&& final(self).cache.tracks_of(p.id) == Some(crate::ordering::sort_by_name(tracks@))
                            &&& final(self).cache.playlist_of(p.id) == Some(p)
                            &&& final(self).cache.playlist_ids() == old(self).cache.playlist_ids().insert(p.id)
                            &&& final(self).cache.all() == old(self).cache.all()
                            &&& forall|id: u128| id != p.id ==> {
                                &&& #[trigger] final(self).cache.tracks_of(id) == old(self).cache.tracks_of(id)
                                &&& final(self).cache.playlist_of(id) == old(self).cache.playlist_of(id)
                            }
                        },
                        None => {
                            &&& final(self).cache.all() == crate::ordering::sort_by_name(tracks@)
                            &&& final(self).cache.playlist_ids() == old(self).cache.playlist_ids()
                            &&& forall|id: u128| {
                                &&& #[trigger] final(self).cache.tracks_of(id) == old(self).cache.tracks_of(id)
                                &&& final(self).cache.playlist_of(id) == old(self).cache.playlist_of(id)
                            }
                        },
                    }
                    &&& final(self).processing == old(self).processing
                },
                Ok(DatabaseEvent::InsertPlaylist(playlist)) => {
                    &&& final(self).cache.tracks_of(playlist.id) == Some(Seq::<Track>::empty())
                    &&& final(self).cache.playlist_of(playlist.id) == Some(playlist)
                    &&& final(self).cache.playlist_ids() == old(self).cache.playlist_ids().insert(playlist.id)
                    &&& final(self).cache.all() == old(self).cache.all()
                    &&& forall|id: u128| id != playlist.id ==> {
                        &&& #[trigger] final(self).cache.tracks_of(id) == old(self).cache.tracks_of(id)
                        &&& final(self).cache.playlist_of(id) == old(self).cache.playlist_of(id)
                    }
                    &&& final(self).processing == old(self).processing
                },
                Ok(DatabaseEvent::QueryPlaylists(playlists)) => {
                    &&& forall|i: int| 0 <= i < playlists@.len() ==> final(self).cache.tracks_of(
                        (#[trigger] playlists@[i]).id,
                    ) == Some(Seq::<Track>::empty())
                    &&& forall|i: int| 0 <= i < playlists@.len() ==> (final(self).cache.playlist_of(
                        (#[trigger] playlists@[i]).id,
                    ) matches Some(q) && q.id == playlists@[i].id && playlists@.contains(q))
                    &&& final(self).cache.playlist_ids() == old(self).cache.playlist_ids().union(
                        crate::loaded::playlist_ids(playlists@),
                    )
                    &&& forall|id: u128| !crate::loaded::playlist_ids(playlists@).contains(id) ==> {
                        &&& #[trigger] final(self).cache.tracks_of(id) == old(self).cache.tracks_of(id)
                        &&& final(self).cache.playlist_of(id) == old(self).cache.playlist_of(id)
                    }
                    &&& final(self).cache.all() == old(self).cache.all()
                    &&& final(self).processing == old(self).processing
                },
                Err(_) => {
                    &&& final(self).cache == old(self).cache
                    &&& final(self).processing@ == finished_one(old(self).processing@)
                },
            },
    {
        match event {
            Ok(DatabaseEvent::InsertTrack(track, playlist)) => {
                let mut added: Vec<Track> = Vec::new();
                added.push(track);
                proof {
                    assert(added@ =~= seq![added@[0]]);
                }
                self.cache.add_tracks_to_playlist(playlist.as_ref(), added);
                self.processing.finished_processing_track();
            },
            Ok(DatabaseEvent::QueryTracks(tracks, playlist)) => {
                self.cache.set_playlist_tracks(playlist, tracks);
            },
            Ok(DatabaseEvent::InsertPlaylist(playlist)) => {
                self.cache.add_empty_playlist(&playlist);
            },
            Ok(DatabaseEvent::QueryPlaylists(playlists)) => {
                let mut i: usize = 0;
                while i < playlists.len()
                    invariant
                        i <= playlists.len(),
                        self.cache.well_formed(),
                        self.cache.all() == old(self).cache.all(),
                        self.playback == old(self).playback,
                        self.ui == old(self).ui,
                        self.processing == old(self).processing,
                        forall|k: int| 0 <= k < i ==> self.cache.tracks_of(
                            (#[trigger] playlists@[k]).id,
                        ) == Some(Seq::<Track>::empty()),
                        self.cache.playlist_ids() == old(self).cache.playlist_ids().union(
                            crate::loaded::playlist_ids(playlists@.take(i as int)),
                        ),
                        forall|k: int| 0 <= k < i ==> (self.cache.playlist_of(
                            (#[trigger] playlists@[k]).id,
                        ) matches Some(q) && q.id == playlists@[k].id && playlists@.contains(q)),
                        forall|id: u128| !crate::loaded::playlist_ids(playlists@.take(i as int)).contains(id) ==> {
                            &&& #[trigger] self.cache.tracks_of(id) == old(self).cache.tracks_of(id)
                            &&& self.cache.playlist_of(id) == old(self).cache.playlist_of(id)
                        },
                        self.cache.all_results() == old(self).cache.all_results(),
                        forall|id: u128| #[trigger] self.cache.results_of(id) == old(self).cache.results_of(id),
                    decreases playlists.len() - i,
                {
                    let ghost before = self.cache;
                    self.cache.add_empty_playlist(&playlists[i]);
                    proof {
                        assert(playlists@.contains(playlists@[i as int]));
                        assert forall|k: int| 0 <= k < i + 1 implies (self.cache.playlist_of(
                            (#[trigger] playlists@[k]).id,
                        ) matches Some(q) && q.id == playlists@[k].id && playlists@.contains(q)) by {
                            if playlists@[k].id != playlists@[i as int].id {
                                assert(self.cache.tracks_of(playlists@[k].id) == before.tracks_of(playlists@[k].id));
                            }
                        }
                        let f = |p: Playlist| p.id;
                        let prefix = playlists@.take(i as int).map_values(f);
                        assert(playlists@.take(i + 1).map_values(f) =~= prefix + seq![playlists@[i as int].id]);
                        Seq::<u128>::lemma_to_set_insert_commutes(prefix, playlists@[i as int].id);
                    }
                    i = i + 1;
                }
                proof {
                    assert(playlists@.take(playlists.len() as int) =~= playlists@);
                }
            },
            Err(_) => {
                self.processing.finished_processing_track();
            },
        }
    }
}

} // verus!
