//! Playback state: the selected track, the playlist autoplay runs through,
//! progress tracking, and the reaction to events from the audio player.
use vstd::prelude::*;
use std::collections::BTreeSet;
use crate::autoplay::{AutoplayContext, AutoplayType, PlayDirection, ShuffleType};
use crate::random::{filtered_random_index, random_index};
use crate::time::{TimeSpan, max_span_nanos};
use crate::track::{Playlist, Track, clone_tracks, same_hash};

verus! {

/// Progress of the playing track. Points in time are spans since an epoch the
/// caller chooses and keeps.
#[derive(Debug, Clone, Copy)]
pub struct ControlContext {
    /// Position reached when the progress was last synchronised.
    pub progress_base: Option<TimeSpan>,
    /// When the track was last (re)started from `progress_base`; `None` while paused.
    pub progress_snapshot: Option<TimeSpan>,
    /// A change of track has been requested and is under way.
    pub changing_track: bool,
}

/// The position of the playing track at time `now`.
pub open spec fn progress_at(control: ControlContext, now: TimeSpan) -> Option<nat> {
    match (control.progress_base, control.progress_snapshot) {
        (Some(base), Some(ts)) => Some(
            base.total_nanos() + if now.total_nanos() >= ts.total_nanos() {
                (now.total_nanos() - ts.total_nanos()) as nat
            } else {
                0nat
            },
        ),
        (Some(base), None) => Some(base.total_nanos()),
        _ => None,
    }
}

impl Default for ControlContext {
    fn default() -> (control: Self)
        ensures
            control.progress_base is None,
            control.progress_snapshot is None,
            !control.changing_track,
    {
        ControlContext { progress_base: None, progress_snapshot: None, changing_track: false }
    }
}

impl ControlContext {
    /// The position of the playing track at time `now`: the base while paused,
    /// the base plus the time since the snapshot while playing, `None` when
    /// nothing has been started. `None` too where the position would exceed
    /// what a `Duration` holds.
    pub fn current_progress(&self, now: TimeSpan) -> (progress: Option<TimeSpan>)
        ensures
            match progress {
                Some(p) => progress_at(*self, now) == Some(p.total_nanos()),
                None => progress_at(*self, now) matches Some(n) ==> n > max_span_nanos(),
            },
    {
        match (self.progress_base, self.progress_snapshot) {
            (Some(base), Some(ts)) => base.checked_add(&now.saturating_sub(&ts)),
            (Some(base), None) => Some(base),
            _ => None,
        }
    }

    /// Replaces the synchronisation point.
    pub fn set_progress(&mut self, progress_base: Option<TimeSpan>, progress_snapshot: Option<TimeSpan>)
        ensures
            final(self).progress_base == progress_base,
            final(self).progress_snapshot == progress_snapshot,
            final(self).changing_track == old(self).changing_track,
    {
        self.progress_base = progress_base;
        self.progress_snapshot = progress_snapshot;
    }
}

/// The track selected for playback and its row in the list it was chosen from.
#[derive(Debug, Clone)]
pub struct SelectedTrackContext {
    pub track: Track,
    pub index: usize,
    pub playing: bool,
}

impl SelectedTrackContext {
    pub fn new(track: Track, index: usize, playing: bool) -> (ctx: Self)
        ensures
            ctx == (SelectedTrackContext { track, index, playing }),
    {
        SelectedTrackContext { track, index, playing }
    }
}

/// A playlist together with the tracks it held when autoplay entered it.
#[derive(Debug)]
pub struct PlaylistState {
    playlist: Playlist,
    tracks: Vec<Track>,
}

impl PlaylistState {
    /// The playlist.
    pub closed spec fn playlist_value(&self) -> Playlist {
        self.playlist
    }

    /// Its tracks.
    pub closed spec fn track_list(&self) -> Seq<Track> {
        self.tracks@
    }

    pub fn new(playlist: Playlist, tracks: Vec<Track>) -> (state: Self)
        ensures
            state.playlist_value() == playlist,
            state.track_list() == tracks@,
    {
        PlaylistState { playlist, tracks }
    }

    pub fn playlist(&self) -> (playlist: Playlist)
        ensures
            playlist == self.playlist_value(),
    {
        self.playlist.clone()
    }

    pub fn tracks(&self) -> (tracks: Vec<Track>)
        ensures
            tracks@ == self.track_list(),
    {
        clone_tracks(&self.tracks)
    }

    /// Its tracks, without copying them.
    pub fn tracks_ref(&self) -> (tracks: &Vec<Track>)
        ensures
            tracks@ == self.track_list(),
    {
        &self.tracks
    }
}

impl Clone for PlaylistState {
    fn clone(&self) -> (copy: Self)
        ensures
            copy.playlist_value() == self.playlist_value(),
            copy.track_list() == self.track_list(),
    {
        PlaylistState { playlist: self.playlist.clone(), tracks: clone_tracks(&self.tracks) }
    }
}

/// The playlist autoplay runs through, and the rows already played in it.
#[derive(Debug)]
pub struct SelectedPlaylistContext {
    playlist: Option<PlaylistState>,
    played_tracks: BTreeSet<usize>,
}

impl SelectedPlaylistContext {
    /// The playlist autoplay runs through; `None` for all tracks.
    pub closed spec fn state(&self) -> Option<PlaylistState> {
        self.playlist
    }

    /// The rows already played.
    pub closed spec fn played(&self) -> Set<usize> {
        self.played_tracks@
    }

    pub fn new() -> (ctx: Self)
        ensures
            ctx.state() is None,
            ctx.played() == Set::<usize>::empty(),
    {
        SelectedPlaylistContext { playlist: None, played_tracks: BTreeSet::new() }
    }

    pub fn playlist(&self) -> (playlist: Option<PlaylistState>)
        ensures
            match playlist {
                Some(p) => self.state() matches Some(s) && p.playlist_value() == s.playlist_value()
                    && p.track_list() == s.track_list(),
                None => self.state() is None,
            },
    {
        match &self.playlist {
            Some(p) => Some(p.clone()),
            None => None,
        }
    }

    pub fn set_playlist(&mut self, playlist: Option<PlaylistState>)
        ensures
            final(self).state() == playlist,
            final(self).played() == old(self).played(),
    {
        self.playlist = playlist;
    }

    /// A copy of the played rows.
    pub fn played_tracks(&self) -> (played: BTreeSet<usize>)
        ensures
            played@ == self.played(),
    {
        self.played_tracks.clone()
    }

    /// Marks a row as played; returns whether it was not played before.
    pub fn add_played_track(&mut self, index: usize) -> (newly: bool)
        ensures
            final(self).played() == old(self).played().insert(index),
            newly == !old(self).played().contains(index),
            final(self).state() == old(self).state(),
    {
        self.played_tracks.insert(index)
    }

    /// Forgets all played rows.
    pub fn clear_played_tracks(&mut self)
        ensures
            final(self).played() == Set::<usize>::empty(),
            final(self).state() == old(self).state(),
    {
        self.played_tracks.clear();
    }
}

impl Default for SelectedPlaylistContext {
    fn default() -> (ctx: Self)
        ensures
            ctx.state() is None,
            ctx.played() == Set::<usize>::empty(),
    {
        SelectedPlaylistContext::new()
    }
}

/// What the audio player reports.
#[derive(Debug, Clone)]
pub enum PlayerEvent {
    /// A new track started playing.
    TrackChanged(Track),
    /// Playback was paused (`false`) or resumed (`true`).
    TrackPlayingStatus(bool),
    /// The player's position in the track.
    TrackProgress(TimeSpan),
}

/// What the player should be told after autoplay made its choice.
#[derive(Debug, Clone)]
pub enum AutoplayStep {
    /// No new track was requested: nothing to do.
    Idle,
    /// No next track could be found: stop playback.
    Stop,
    /// Start playing this track.
    Play(Track),
}

/// The row autoplay iterates to from `index` in a list of `len` rows, wrapping
/// around at both ends.
pub open spec fn iterate_index(direction: PlayDirection, index: int, len: int) -> int {
    match direction {
        PlayDirection::Forward => (index + 1) % len,
        PlayDirection::Backward => (index + (len - 1)) % len,
    }
}

/// The first row of `tracks` holding the same content hash as `track`.
pub open spec fn first_same_hash(tracks: Seq<Track>, track: Track, index: int) -> bool {
    &&& 0 <= index < tracks.len()
    &&& same_hash(tracks[index], track)
    &&& forall|j: int| 0 <= j < index ==> !same_hash(#[trigger] tracks[j], track)
}

/// The row autoplay iterates to.
pub fn iterative_index(direction: PlayDirection, index: usize, len: usize) -> (next: usize)
    requires
        index < len,
    ensures
        next == iterate_index(direction, index as int, len as int),
        next < len,
{
    match direction {
        PlayDirection::Forward => {
            if index + 1 == len {
                assert((index + 1) % (len as int) == 0) by {
                    vstd::arithmetic::div_mod::lemma_mod_self_0(len as int);
                }
                0
            } else {
                assert((index + 1) % (len as int) == index + 1) by {
                    vstd::arithmetic::div_mod::lemma_small_mod((index + 1) as nat, len as nat);
                }
                index + 1
            }
        },
        PlayDirection::Backward => {
            if index == 0 {
                assert((0 + (len - 1)) % (len as int) == len - 1) by {
                    vstd::arithmetic::div_mod::lemma_small_mod((len - 1) as nat, len as nat);
                }
                len - 1
            } else {
                assert((index + (len - 1)) % (len as int) == index - 1) by {
                    vstd::arithmetic::div_mod::lemma_mod_adds(
                        (index - 1) as int,
                        len as int,
                        len as int,
                    );
                    vstd::arithmetic::div_mod::lemma_mod_self_0(len as int);
                    vstd::arithmetic::div_mod::lemma_small_mod((index - 1) as nat, len as nat);
                }
                index - 1
            }
        },
    }
}

/// The first row holding the same content hash as `track`.
fn find_same_hash(tracks: &Vec<Track>, track: &Track) -> (index: Option<usize>)
    ensures
        match index {
            Some(i) => first_same_hash(tracks@, *track, i as int),
            None => forall|j: int| 0 <= j < tracks@.len() ==> !same_hash(#[trigger] tracks@[j], *track),
        },
{
    let mut i: usize = 0;
    while i < tracks.len()
        invariant
            i <= tracks.len(),
            forall|j: int| 0 <= j < i ==> !same_hash(#[trigger] tracks@[j], *track),
        decreases tracks.len() - i,
    {
        if tracks[i].same_hash_as(track) {
            return Some(i);
        }
        i = i + 1;
    }
    None
}

/// Everything about playback.
#[derive(Debug)]
pub struct PlaybackContext {
    /// Which track is currently selected for playback.
    pub selected_track: Option<SelectedTrackContext>,
    /// What playlist currently is selected for tracks to be autoplayed in.
    pub selected_playlist: SelectedPlaylistContext,
    pub control: ControlContext,
    pub autoplay: AutoplayContext,
}

/// The tracks autoplay moves through: those of its playlist, or all tracks.
pub open spec fn autoplay_tracks(selected: SelectedPlaylistContext, all_tracks: Seq<Track>) -> Seq<Track> {
    match selected.state() {
        Some(state) => state.track_list(),
        None => all_tracks,
    }
}

/// Whether the selected track exists and is playing.
pub open spec fn is_playing(selected: Option<SelectedTrackContext>) -> bool {
    selected matches Some(t) && t.playing
}

/// The state after a player event, as `handle_player_event` computes it.
pub open spec fn event_applied(
    old: PlaybackContext,
    new: PlaybackContext,
    event: PlayerEvent,
    now: TimeSpan,
) -> bool {
    &&& new.selected_playlist == old.selected_playlist
    &&& new.autoplay == old.autoplay
    &&& match event {
        PlayerEvent::TrackChanged(track) => {
            &&& new.selected_track == match old.selected_track {
                Some(t) => Some(SelectedTrackContext { track, index: t.index, playing: true }),
                None => None,
            }
            &&& new.control.progress_base matches Some(b) && b.total_nanos() == 0
            &&& new.control.progress_snapshot == Some(now)
            &&& !new.control.changing_track
        },
        PlayerEvent::TrackPlayingStatus(playing) => {
            &&& new.selected_track == match old.selected_track {
                Some(t) => Some(SelectedTrackContext { playing, ..t }),
                None => None,
            }
            &&& new.control.changing_track == old.control.changing_track
            &&& if !playing && is_playing(old.selected_track) && old.control.progress_base is Some
                && old.control.progress_snapshot is Some {
                // Pausing freezes the position reached.
                &&& new.control.progress_base matches Some(b) && Some(b.total_nanos()) == progress_at(
                    old.control,
                    now,
                )
                &&& new.control.progress_snapshot is None
            } else if playing && !is_playing(old.selected_track) {
                // Resuming continues from the frozen position.
                &&& new.control.progress_base == old.control.progress_base
                &&& new.control.progress_snapshot == Some(now)
            } else {
                new.control == old.control
            }
        },
        PlayerEvent::TrackProgress(position) => {
            &&& new.selected_track == old.selected_track
            &&& if old.control.progress_base matches Some(b) && b.total_nanos() < position.total_nanos() {
                // The player is ahead: resynchronise with it.
                &&& new.control.progress_base == Some(position)
                &&& new.control.progress_snapshot == Some(now)
                &&& new.control.changing_track == old.control.changing_track
            } else {
                new.control == old.control
            }
        },
    }
}

/// The position frozen by a pause fits in a `Duration` (it does unless the
/// track has been playing for longer than a `Duration` can hold).
pub open spec fn event_fits(old: PlaybackContext, event: PlayerEvent, now: TimeSpan) -> bool {
    event matches PlayerEvent::TrackPlayingStatus(false) && is_playing(old.selected_track)
        ==> (progress_at(old.control, now) matches Some(n) ==> n <= max_span_nanos())
}

/// At time `now` the selected track has played to its end, and no track
/// change is under way yet.
pub open spec fn end_reached(ctx: PlaybackContext, now: TimeSpan) -> bool {
    &&& !ctx.control.changing_track
    &&& ctx.selected_track matches Some(t)
    &&& progress_at(ctx.control, now) matches Some(p)
    &&& p >= t.track.duration.total_nanos()
}

/// The playback state after autoplay moved on (`select_next_track`), with
/// `all_tracks` the list used outside a playlist.
pub open spec fn autoplay_advanced(
    old_ctx: PlaybackContext,
    new_ctx: PlaybackContext,
    all_tracks: Seq<Track>,
    step: AutoplayStep,
) -> bool {

                if old_ctx.selected_track is None || !old_ctx.autoplay.pending_new_track() {
                    step is Idle && new_ctx == old_ctx
                } else {
                    let current = old_ctx.selected_track->0.track;
                    let rule = match old_ctx.autoplay.controlled() {
                        Some(r) => r,
                        None => old_ctx.autoplay.autoplay_rule(),
                    };
                    let tracks = autoplay_tracks(old_ctx.selected_playlist, all_tracks);
                    &&& !new_ctx.autoplay.pending_new_track()
                    &&& new_ctx.autoplay.controlled() is None
                    &&& new_ctx.autoplay.autoplay_rule() == old_ctx.autoplay.autoplay_rule()
                    &&& new_ctx.control == old_ctx.control
                    &&& new_ctx.selected_playlist.state() == old_ctx.selected_playlist.state()
                    &&& if forall|j: int| 0 <= j < tracks.len() ==> !same_hash(#[trigger] tracks[j], current) {
                        &&& step is Stop
                        &&& new_ctx.selected_track is None
                        &&& new_ctx.selected_playlist.played() == old_ctx.selected_playlist.played()
                    } else {
                        exists|index: int, next: int| {
                            &&& first_same_hash(tracks, current, index)
                            &&& 0 <= next < tracks.len()
                            &&& step == AutoplayStep::Play(tracks[next])
                            &&& new_ctx.selected_track == Some(
                                SelectedTrackContext { track: tracks[next], index: next as usize, playing: true },
                            )
                            &&& match rule {
                                AutoplayType::Iterative(direction) => {
                                    &&& next == iterate_index(direction, index, tracks.len() as int)
                                    &&& new_ctx.selected_playlist.played()
                                        == old_ctx.selected_playlist.played().insert(index as usize)
                                },
                                AutoplayType::Shuffle(ShuffleType::TrueRandom) => {
                                    new_ctx.selected_playlist.played()
                                        == old_ctx.selected_playlist.played().insert(index as usize)
                                },
                                AutoplayType::Shuffle(ShuffleType::PseudoRandom) => {
                                    let played = old_ctx.selected_playlist.played().insert(index as usize);
                                    if exists|j: usize| j < tracks.len() && !played.contains(j) {
                                        &&& !played.contains(next as usize)
                                        &&& new_ctx.selected_playlist.played() == played
                                    } else {
                                        new_ctx.selected_playlist.played() == Set::<usize>::empty()
                                    }
                                },
                            }
                        }
                    }
                }
}

impl Default for PlaybackContext {
    fn default() -> (ctx: Self)
        ensures
            ctx.selected_track is None,
            ctx.selected_playlist.state() is None,
            ctx.selected_playlist.played() == Set::<usize>::empty(),
            ctx.control.progress_base is None,
            ctx.control.progress_snapshot is None,
            !ctx.control.changing_track,
            !ctx.autoplay.pending_new_track(),
            ctx.autoplay.controlled() is None,
            ctx.autoplay.autoplay_rule() == AutoplayType::Iterative(PlayDirection::Forward),
    {
        PlaybackContext {
            selected_track: None,
            selected_playlist: SelectedPlaylistContext::new(),
            control: ControlContext::default(),
            autoplay: AutoplayContext::default(),
        }
    }
}

impl PlaybackContext {
    pub fn select_track(&mut self, track: Option<SelectedTrackContext>)
        ensures
            final(self).selected_track == track,
            final(self).selected_playlist == old(self).selected_playlist,
            final(self).control == old(self).control,
            final(self).autoplay == old(self).autoplay,
    {
        self.selected_track = track;
    }

    pub fn select_playlist(&mut self, playlist: SelectedPlaylistContext)
        ensures
            final(self).selected_playlist == playlist,
            final(self).selected_track == old(self).selected_track,
            final(self).control == old(self).control,
            final(self).autoplay == old(self).autoplay,
    {
        self.selected_playlist = playlist;
    }

    /// Whether an event of the audio player received at time `now` can be
    /// applied: a pause must freeze a position that a `Duration` can hold.
    pub fn fits_event(&self, player_event: &PlayerEvent, now: TimeSpan) -> (fits: bool)
        ensures
            fits == event_fits(*self, *player_event, now),
    {
        let playing = match &self.selected_track {
            Some(t) => t.playing,
            None => false,
        };
        match player_event {
            PlayerEvent::TrackPlayingStatus(false) if playing => match self.control.progress_base {
                None => true,
                Some(_) => match self.control.current_progress(now) {
                    Some(p) => {
                        proof {
                            use_type_invariant(&p);
                            crate::time::lemma_span_bounded(p);
                        }
                        true
                    },
                    None => false,
                },
            },
            _ => true,
        }
    }

    /// Brings the playback state in line with an event of the audio player
    /// received at time `now`.
    pub fn handle_player_event(&mut self, player_event: PlayerEvent, now: TimeSpan)
        requires
            event_fits(*old(self), player_event, now),
        ensures
            event_applied(*old(self), *final(self), player_event, now),
    {
        match player_event {
            PlayerEvent::TrackChanged(track) => {
                match self.selected_track.take() {
                    Some(t) => {
                        self.selected_track = Some(
                            SelectedTrackContext { track, index: t.index, playing: true },
                        );
                    },
                    None => {},
                }
                self.control.progress_base = Some(TimeSpan::zero());
                self.control.progress_snapshot = Some(now);
                self.control.changing_track = false;
            },
            PlayerEvent::TrackPlayingStatus(playing) => {
                let was_playing = match &self.selected_track {
                    Some(t) => t.playing,
                    None => false,
                };
                // If we are pausing, freeze current progress.
                if !playing && was_playing {
                    if let (Some(base), Some(ts)) = (
                        self.control.progress_base,
                        self.control.progress_snapshot,
                    ) {
                        let elapsed = now.saturating_sub(&ts);
                        match base.checked_add(&elapsed) {
                            Some(frozen) => {
                                self.control.progress_base = Some(frozen);
                            },
                            None => {},
                        }
                        self.control.progress_snapshot = None;
                    }
                }
                // If we are resuming, set the snapshot so progress resumes from base.
                if playing && !was_playing {
                    self.control.progress_snapshot = Some(now);
                }
                match self.selected_track.take() {
                    Some(t) => {
                        self.selected_track = Some(SelectedTrackContext { playing, ..t });
                    },
                    None => {},
                }
            },
            PlayerEvent::TrackProgress(duration) => {
                let behind = match self.control.progress_base {
                    Some(base) => base.is_shorter_than(&duration),
                    None => false,
                };
                // If the progress is not synced properly, do it here.
                if behind {
                    self.control.progress_base = Some(duration);
                    self.control.progress_snapshot = Some(now);
                }
            },
        }
    }

    /// Moves autoplay on once a new track has been requested (the current one
    /// ended, or a skip control was used). `all_tracks` is the list used when
    /// autoplay is not inside a playlist.
    pub fn select_next_track(&mut self, all_tracks: &Vec<Track>) -> (step: AutoplayStep)
        ensures
            autoplay_advanced(*old(self), *final(self), all_tracks@, step),
    {
        let current = match &self.selected_track {
            Some(t) => {
                if !self.autoplay.select_new_track() {
                    return AutoplayStep::Idle;
                }
                t.track.clone()
            },
            None => {
                return AutoplayStep::Idle;
            },
        };
        // A playback control (forward/backward) takes precedence over the configured rule.
        let rule = match self.autoplay.consume_controlled() {
            Some(r) => r,
            None => *self.autoplay.autoplay(),
        };
        self.autoplay.set_select_new_track(false);

        let playlist_tracks = self.selected_playlist.playlist();
        let tracks: &Vec<Track> = match &playlist_tracks {
            Some(state) => state.tracks_ref(),
            None => all_tracks,
        };

        let index = match find_same_hash(tracks, &current) {
            Some(i) => i,
            None => {
                // Could not find a new track to play.
                self.selected_track = None;
                return AutoplayStep::Stop;
            },
        };
        // A track counts as played once autoplay moves on from it.
        self.selected_playlist.add_played_track(index);
        let len = tracks.len();

        let next = match rule {
            AutoplayType::Iterative(direction) => iterative_index(direction, index, len),
            AutoplayType::Shuffle(ShuffleType::PseudoRandom) => {
                let played = self.selected_playlist.played_tracks();
                match filtered_random_index(len, &played) {
                    Some(i) => i,
                    None => {
                        // Every track has been played: start over.
                        self.selected_playlist.clear_played_tracks();
                        random_index(len)
                    },
                }
            },
            AutoplayType::Shuffle(ShuffleType::TrueRandom) => random_index(len),
        };
        let next_track = tracks[next].clone();
        self.selected_track = Some(SelectedTrackContext::new(next_track.clone(), next, true));
        AutoplayStep::Play(next_track)
    }

    /// A skip control (previous or next track) was used: a new track is
    /// requested; while shuffling the configured rule picks it, otherwise it is
    /// the neighbour in the given direction.
    pub fn skip(&mut self, direction: PlayDirection)
        ensures
            final(self).autoplay.pending_new_track(),
            final(self).autoplay.autoplay_rule() == old(self).autoplay.autoplay_rule(),
            old(self).autoplay.autoplay_rule() is Shuffle ==> final(self).autoplay.controlled()
                == old(self).autoplay.controlled(),
            !(old(self).autoplay.autoplay_rule() is Shuffle) ==> final(self).autoplay.controlled()
                == Some(AutoplayType::Iterative(direction)),
            final(self).selected_track == old(self).selected_track,
            final(self).selected_playlist == old(self).selected_playlist,
            final(self).control == old(self).control,
    {
        if self.autoplay.is_shuffle() {
            self.autoplay.set_select_new_track(true);
        } else {
            self.autoplay.set_incoming_track(true, Some(AutoplayType::Iterative(direction)));
        }
    }

    /// Checks at time `now` whether the selected track has played to its end;
    /// the first time it has, a track change starts and a new track is
    /// requested. Returns whether that happened.
    pub fn track_end_reached(&mut self, now: TimeSpan) -> (reached: bool)
        ensures
            reached == end_reached(*old(self), now),
            reached ==> {
                &&& final(self).control.changing_track
                &&& final(self).autoplay.pending_new_track()
                &&& final(self).autoplay.controlled() == old(self).autoplay.controlled()
                &&& final(self).autoplay.autoplay_rule() == old(self).autoplay.autoplay_rule()
                &&& final(self).control.progress_base == old(self).control.progress_base
                &&& final(self).control.progress_snapshot == old(self).control.progress_snapshot
            },
            !reached ==> *final(self) == *old(self),
            final(self).selected_track == old(self).selected_track,
            final(self).selected_playlist == old(self).selected_playlist,
    {
        if self.control.changing_track {
            return false;
        }
        let duration = match &self.selected_track {
            Some(t) => t.track.duration,
            None => {
                return false;
            },
        };
        let length = duration.as_nanos();
        let reached = match self.control.current_progress(now) {
            Some(progress) => progress.as_nanos() >= length,
            None => {
                // Beyond the longest span: certainly past the end.
                match (self.control.progress_base, self.control.progress_snapshot) {
                    (Some(_), _) => true,
                    _ => false,
                }
            },
        };
        if reached {
            self.control.changing_track = true;
            self.autoplay.set_select_new_track(true);
        }
        reached
    }

    /// The user moved the position slider to `position` at time `now`: unless
    /// a track change is under way, playback continues from there. Returns
    /// whether the player is to seek.
    pub fn seek(&mut self, position: TimeSpan, now: TimeSpan) -> (seeking: bool)
        ensures
            seeking == !old(self).control.changing_track,
            seeking ==> {
                &&& final(self).control.progress_base == Some(position)
                &&& final(self).control.progress_snapshot == Some(now)
                &&& !final(self).control.changing_track
            },
            !seeking ==> final(self).control == old(self).control,
            final(self).selected_track == old(self).selected_track,
            final(self).selected_playlist == old(self).selected_playlist,
            final(self).autoplay == old(self).autoplay,
    {
        if self.control.changing_track {
            return false;
        }
        self.control.set_progress(Some(position), Some(now));
        true
    }
}

/// Autoplay wraps around: stepping forward and then backward returns to the
/// same row, and so does stepping backward and then forward.
pub proof fn lemma_iterate_inverse(index: int, len: int)
    requires
        0 <= index < len,
    ensures
        iterate_index(PlayDirection::Backward, iterate_index(PlayDirection::Forward, index, len), len)
            == index,
        iterate_index(PlayDirection::Forward, iterate_index(PlayDirection::Backward, index, len), len)
            == index,
        0 <= iterate_index(PlayDirection::Forward, index, len) < len,
        0 <= iterate_index(PlayDirection::Backward, index, len) < len,
{
    let f = iterate_index(PlayDirection::Forward, index, len);
    let b = iterate_index(PlayDirection::Backward, index, len);
    if index + 1 == len {
        vstd::arithmetic::div_mod::lemma_mod_self_0(len);
        assert(f == 0);
        vstd::arithmetic::div_mod::lemma_small_mod((len - 1) as nat, len as nat);
    } else {
        vstd::arithmetic::div_mod::lemma_small_mod((index + 1) as nat, len as nat);
        assert(f == index + 1);
        vstd::arithmetic::div_mod::lemma_mod_adds(index, len, len);
        vstd::arithmetic::div_mod::lemma_mod_self_0(len);
        vstd::arithmetic::div_mod::lemma_small_mod(index as nat, len as nat);
    }
    if index == 0 {
        vstd::arithmetic::div_mod::lemma_small_mod((len - 1) as nat, len as nat);
        assert(b == len - 1);
        vstd::arithmetic::div_mod::lemma_mod_self_0(len);
    } else {
        vstd::arithmetic::div_mod::lemma_mod_adds(index - 1, len, len);
        vstd::arithmetic::div_mod::lemma_mod_self_0(len);
        vstd::arithmetic::div_mod::lemma_small_mod((index - 1) as nat, len as nat);
        assert(b == index - 1);
        vstd::arithmetic::div_mod::lemma_small_mod(index as nat, len as nat);
    }
}

/// Pausing freezes the position: after the player reports a pause at `paused_at`,
/// the position is the one reached at `paused_at`, whenever it is read.
pub proof fn lemma_pause_freezes_progress(
    before: PlaybackContext,
    after: PlaybackContext,
    paused_at: TimeSpan,
    later: TimeSpan,
)
    requires
        is_playing(before.selected_track),
        before.control.progress_base is Some,
        before.control.progress_snapshot is Some,
        event_applied(before, after, PlayerEvent::TrackPlayingStatus(false), paused_at),
    ensures
        progress_at(after.control, later) == progress_at(before.control, paused_at),
        !is_playing(after.selected_track),
{
}

/// Resuming continues from the frozen position: right after the player reports
/// that playback resumed, the position is where it was paused.
pub proof fn lemma_resume_continues(
    paused: PlaybackContext,
    resumed: PlaybackContext,
    resumed_at: TimeSpan,
)
    requires
        paused.selected_track is Some,
        !is_playing(paused.selected_track),
        paused.control.progress_snapshot is None,
        event_applied(paused, resumed, PlayerEvent::TrackPlayingStatus(true), resumed_at),
    ensures
        progress_at(resumed.control, resumed_at) == progress_at(paused.control, resumed_at),
        is_playing(resumed.selected_track),
{
}

/// After a seek to `position` at time `now`, the position read at any later
/// time is `position` plus the time since the seek.
pub proof fn lemma_seek_sets_position(control: ControlContext, position: TimeSpan, now: TimeSpan, later: TimeSpan)
    requires
        control.progress_base == Some(position),
        control.progress_snapshot == Some(now),
        now.total_nanos() <= later.total_nanos(),
    ensures
        progress_at(control, now) == Some(position.total_nanos()),
        progress_at(control, later) == Some(position.total_nanos() + (later.total_nanos() - now.total_nanos()) as nat),
{
}

/// When the player reports a new track, its position starts from zero at the
/// time of the report, and no track change is pending any more.
pub proof fn lemma_track_change_restarts(
    before: PlaybackContext,
    after: PlaybackContext,
    track: Track,
    changed_at: TimeSpan,
    later: TimeSpan,
)
    requires
        event_applied(before, after, PlayerEvent::TrackChanged(track), changed_at),
        changed_at.total_nanos() <= later.total_nanos(),
    ensures
        progress_at(after.control, changed_at) == Some(0nat),
        progress_at(after.control, later) == Some((later.total_nanos() - changed_at.total_nanos()) as nat),
        !after.control.changing_track,
{
}

/// Once the end of a track has been reached and a track change has started,
/// the end is not reached again until the change is done: one ended track
/// requests one new track.
pub proof fn lemma_end_reached_once(ctx: PlaybackContext, later: TimeSpan)
    requires
        ctx.control.changing_track,
    ensures
        !end_reached(ctx, later),
{
}

/// The row reached from `index` after `steps` iterative autoplay steps.
pub open spec fn iterate_steps(direction: PlayDirection, index: int, len: int, steps: nat) -> int
    decreases steps,
{
    if steps == 0 {
        index
    } else {
        iterate_index(direction, iterate_steps(direction, index, len, (steps - 1) as nat), len)
    }
}

/// Forward autoplay walks the rows in order and wraps around at the end: after
/// `steps` steps from row `index` it is at row `(index + steps) % len`.
pub proof fn lemma_forward_steps(index: int, len: int, steps: nat)
    requires
        0 <= index < len,
    ensures
        iterate_steps(PlayDirection::Forward, index, len, steps) == (index + steps) % len,
    decreases steps,
{
    if steps > 0 {
        let before = (steps - 1) as nat;
        lemma_forward_steps(index, len, before);
        let prev = iterate_steps(PlayDirection::Forward, index, len, before);
        vstd::arithmetic::div_mod::lemma_add_mod_noop_right(1, index + before, len);
        assert((prev + 1) % len == (1 + (index + before)) % len);
    } else {
        vstd::arithmetic::div_mod::lemma_small_mod(index as nat, len as nat);
    }
}

/// After as many forward steps as there are rows, autoplay is back where it started.
pub proof fn lemma_forward_full_circle(index: int, len: int)
    requires
        0 <= index < len,
    ensures
        iterate_steps(PlayDirection::Forward, index, len, len as nat) == index,
{
    lemma_forward_steps(index, len, len as nat);
    vstd::arithmetic::div_mod::lemma_add_mod_noop_right(index, len, len);
    vstd::arithmetic::div_mod::lemma_mod_self_0(len);
    vstd::arithmetic::div_mod::lemma_small_mod(index as nat, len as nat);
}

/// The row one step away in a list of `len` rows: forward goes to the next
/// row and from the last row back to the first; backward goes to the
/// previous row and from the first row to the last.
pub open spec fn neighbour_row(direction: PlayDirection, index: int, len: int) -> int {
    match direction {
        PlayDirection::Forward => if index + 1 == len { 0 } else { index + 1 },
        PlayDirection::Backward => if index == 0 { len - 1 } else { index - 1 },
    }
}

/// Two first rows with the same hash are the same row.
proof fn lemma_first_same_hash_unique(tracks: Seq<Track>, track: Track, i: int, j: int)
    requires
        first_same_hash(tracks, track, i),
        first_same_hash(tracks, track, j),
    ensures
        i == j,
{
    if i < j {
        assert(!same_hash(tracks[i], track));
    }
    if j < i {
        assert(!same_hash(tracks[j], track));
    }
}

/// An iterative step lands on the neighbouring row.
proof fn lemma_iterate_is_neighbour(direction: PlayDirection, index: int, len: int)
    requires
        0 <= index < len,
    ensures
        iterate_index(direction, index, len) == neighbour_row(direction, index, len),
{
    match direction {
        PlayDirection::Forward => {
            if index + 1 == len {
                vstd::arithmetic::div_mod::lemma_mod_self_0(len);
            } else {
                vstd::arithmetic::div_mod::lemma_small_mod((index + 1) as nat, len as nat);
            }
        },
        PlayDirection::Backward => {
            if index == 0 {
                vstd::arithmetic::div_mod::lemma_small_mod((len - 1) as nat, len as nat);
            } else {
                vstd::arithmetic::div_mod::lemma_mod_adds(index - 1, len, len);
                vstd::arithmetic::div_mod::lemma_mod_self_0(len);
                vstd::arithmetic::div_mod::lemma_small_mod((index - 1) as nat, len as nat);
            }
        },
    }
}

/// With no one-off rule pending, an iterative autoplay rule moves in its own
/// configured direction: from the row of the ended track, Forward plays the
/// next row (wrapping to the first) and Reverse the previous row (wrapping to
/// the last), and that track becomes the selected, playing one.
pub proof fn lemma_autoplay_follows_configured_direction(
    before: PlaybackContext,
    after: PlaybackContext,
    all_tracks: Seq<Track>,
    step: AutoplayStep,
    direction: PlayDirection,
    index: int,
)
    requires
        autoplay_advanced(before, after, all_tracks, step),
        before.selected_track is Some,
        before.autoplay.pending_new_track(),
        before.autoplay.controlled() is None,
        before.autoplay.autoplay_rule() == AutoplayType::Iterative(direction),
        first_same_hash(
            autoplay_tracks(before.selected_playlist, all_tracks),
            before.selected_track->0.track,
            index,
        ),
    ensures
        ({
            let tracks = autoplay_tracks(before.selected_playlist, all_tracks);
            let next = neighbour_row(direction, index, tracks.len() as int);
            &&& 0 <= next < tracks.len()
            &&& step == AutoplayStep::Play(tracks[next])
            &&& after.selected_track == Some(
                SelectedTrackContext { track: tracks[next], index: next as usize, playing: true },
            )
        }),
{
    let tracks = autoplay_tracks(before.selected_playlist, all_tracks);
    let current = before.selected_track->0.track;
    let len = tracks.len() as int;
    assert(same_hash(tracks[index], current));
    let (i, n) = choose|i: int, n: int|
        {
            &&& first_same_hash(tracks, current, i)
            &&& 0 <= n < tracks.len()
            &&& step == AutoplayStep::Play(tracks[n])
            &&& after.selected_track == Some(
                SelectedTrackContext { track: tracks[n], index: n as usize, playing: true },
            )
            &&& match AutoplayType::Iterative(direction) {
                AutoplayType::Iterative(d) => {
                    &&& n == iterate_index(d, i, tracks.len() as int)
                    &&& after.selected_playlist.played() == before.selected_playlist.played().insert(
                        i as usize,
                    )
                },
                AutoplayType::Shuffle(ShuffleType::TrueRandom) => after.selected_playlist.played()
                    == before.selected_playlist.played().insert(i as usize),
                AutoplayType::Shuffle(ShuffleType::PseudoRandom) => {
                    let played = before.selected_playlist.played().insert(i as usize);
                    if exists|j: usize| j < tracks.len() && !played.contains(j) {
                        &&& !played.contains(n as usize)
                        &&& after.selected_playlist.played() == played
                    } else {
                        after.selected_playlist.played() == Set::<usize>::empty()
                    }
                },
            }
        };
    lemma_first_same_hash_unique(tracks, current, i, index);
    lemma_iterate_is_neighbour(direction, index, len);
}

} // verus!
