use daemos::autoplay::{AutoplayType, PlayDirection, ShuffleType};
use daemos::cache::CacheContext;
use daemos::context::{autoplay_status_text, Context, RowPlay};
use daemos::database::{track_insert_outcome, DatabaseError, DatabaseEvent};
use daemos::loaded::{LoadedContext, LoadedPlaylistsContext, LoadedTracksContext};
use daemos::playback::{
    iterative_index, AutoplayStep, ControlContext, PlaybackContext, PlayerEvent, PlaylistState,
    SelectedPlaylistContext, SelectedTrackContext,
};
use daemos::random::filtered_random_index;
use daemos::search::{SearchConfig, SearchMatchingStrategy, TrackSearch};
use daemos::time::TimeSpan;
use daemos::track::{Playlist, Track};
use std::collections::BTreeSet;

fn track(id: u128, name: &str) -> Track {
    Track {
        id,
        path: format!("/music/{name}.mp3"),
        name: name.to_string(),
        hash: Some(format!("hash-{id}")),
        duration: TimeSpan::from_secs(180),
        valid: true,
        created_at: "2024-01-01T00:00:00Z".to_string(),
        updated_at: "2024-01-01T00:00:00Z".to_string(),
    }
}

fn playlist(id: u128, name: &str) -> Playlist {
    Playlist {
        id,
        name: name.to_string(),
        created_at: "2024-01-01T00:00:00Z".to_string(),
        updated_at: "2024-01-01T00:00:00Z".to_string(),
    }
}

fn names(tracks: &[Track]) -> Vec<String> {
    tracks.iter().map(|t| t.name.clone()).collect()
}

fn secs(s: u64) -> TimeSpan {
    TimeSpan::from_secs(s)
}

#[test]
fn iterative_autoplay_wraps_around() {
    assert_eq!(iterative_index(PlayDirection::Forward, 0, 3), 1);
    assert_eq!(iterative_index(PlayDirection::Forward, 2, 3), 0);
    assert_eq!(iterative_index(PlayDirection::Backward, 0, 3), 2);
    assert_eq!(iterative_index(PlayDirection::Backward, 2, 3), 1);
    assert_eq!(iterative_index(PlayDirection::Forward, 0, 1), 0);
    assert_eq!(iterative_index(PlayDirection::Backward, 0, 1), 0);
    for i in 0..5 {
        let f = iterative_index(PlayDirection::Forward, i, 5);
        assert_eq!(iterative_index(PlayDirection::Backward, f, 5), i);
    }
}

#[test]
fn forward_autoplay_walks_every_row_in_order() {
    let len = 4;
    let mut index = 2;
    let mut visited = Vec::new();
    for _ in 0..len {
        index = iterative_index(PlayDirection::Forward, index, len);
        visited.push(index);
    }
    assert_eq!(visited, vec![3, 0, 1, 2]);
}

#[test]
fn filtered_random_index_avoids_excluded() {
    let mut excluded = BTreeSet::new();
    excluded.insert(0);
    excluded.insert(2);
    for _ in 0..20 {
        assert_eq!(filtered_random_index(3, &excluded), Some(1));
    }
    excluded.insert(1);
    assert_eq!(filtered_random_index(3, &excluded), None);
    assert_eq!(filtered_random_index(0, &BTreeSet::new()), None);
}

#[test]
fn progress_follows_the_clock_while_playing() {
    let mut control = ControlContext::default();
    assert!(control.current_progress(secs(10)).is_none());
    control.set_progress(Some(secs(5)), Some(secs(100)));
    assert_eq!(control.current_progress(secs(103)).unwrap().as_secs(), 8);
    // A clock reading before the snapshot counts as no time passed.
    assert_eq!(control.current_progress(secs(50)).unwrap().as_secs(), 5);
    control.set_progress(Some(secs(5)), None);
    assert_eq!(control.current_progress(secs(1000)).unwrap().as_secs(), 5);
}

fn playing_context(tracks: &[Track], index: usize) -> PlaybackContext {
    let mut ctx = PlaybackContext::default();
    ctx.select_track(Some(SelectedTrackContext::new(tracks[index].clone(), index, true)));
    ctx
}

#[test]
fn pause_freezes_and_resume_continues() {
    let tracks = vec![track(1, "a")];
    let mut ctx = playing_context(&tracks, 0);
    ctx.handle_player_event(PlayerEvent::TrackChanged(tracks[0].clone()), secs(100));
    assert_eq!(ctx.control.current_progress(secs(130)).unwrap().as_secs(), 30);

    ctx.handle_player_event(PlayerEvent::TrackPlayingStatus(false), secs(140));
    assert!(!ctx.selected_track.as_ref().unwrap().playing);
    assert!(ctx.control.progress_snapshot.is_none());
    assert_eq!(ctx.control.current_progress(secs(500)).unwrap().as_secs(), 40);

    ctx.handle_player_event(PlayerEvent::TrackPlayingStatus(true), secs(600));
    assert!(ctx.selected_track.as_ref().unwrap().playing);
    assert_eq!(ctx.control.current_progress(secs(600)).unwrap().as_secs(), 40);
    assert_eq!(ctx.control.current_progress(secs(610)).unwrap().as_secs(), 50);
}

#[test]
fn track_change_restarts_progress() {
    let tracks = vec![track(1, "a"), track(2, "b")];
    let mut ctx = playing_context(&tracks, 0);
    ctx.control.changing_track = true;
    ctx.handle_player_event(PlayerEvent::TrackChanged(tracks[1].clone()), secs(7));
    let selected = ctx.selected_track.as_ref().unwrap();
    assert_eq!(selected.track.name, "b");
    assert_eq!(selected.index, 0);
    assert!(selected.playing);
    assert!(!ctx.control.changing_track);
    assert_eq!(ctx.control.current_progress(secs(7)).unwrap().as_nanos(), 0);
}

#[test]
fn progress_resynchronises_only_forward() {
    let tracks = vec![track(1, "a")];
    let mut ctx = playing_context(&tracks, 0);
    ctx.control.set_progress(Some(secs(10)), Some(secs(100)));
    ctx.handle_player_event(PlayerEvent::TrackProgress(secs(5)), secs(101));
    assert_eq!(ctx.control.progress_base.unwrap().as_secs(), 10);
    ctx.handle_player_event(PlayerEvent::TrackProgress(secs(20)), secs(102));
    assert_eq!(ctx.control.progress_base.unwrap().as_secs(), 20);
    assert_eq!(ctx.control.progress_snapshot.unwrap().as_secs(), 102);
}

#[test]
fn autoplay_idle_without_request() {
    let tracks = vec![track(1, "a"), track(2, "b")];
    let mut ctx = playing_context(&tracks, 0);
    assert!(matches!(ctx.select_next_track(&tracks), AutoplayStep::Idle));
    let mut empty = PlaybackContext::default();
    empty.autoplay.set_select_new_track(true);
    assert!(matches!(empty.select_next_track(&tracks), AutoplayStep::Idle));
}

#[test]
fn autoplay_iterates_forward_and_backward() {
    let tracks = vec![track(1, "a"), track(2, "b"), track(3, "c")];
    let mut ctx = playing_context(&tracks, 2);
    ctx.autoplay.set_select_new_track(true);
    match ctx.select_next_track(&tracks) {
        AutoplayStep::Play(t) => assert_eq!(t.name, "a"),
        other => panic!("unexpected {other:?}"),
    }
    assert_eq!(ctx.selected_track.as_ref().unwrap().index, 0);
    assert!(!ctx.autoplay.select_new_track());
    assert!(ctx.selected_playlist.played_tracks().contains(&2));

    ctx.skip(PlayDirection::Backward);
    match ctx.select_next_track(&tracks) {
        AutoplayStep::Play(t) => assert_eq!(t.name, "c"),
        other => panic!("unexpected {other:?}"),
    }
    // The one-off direction was used up: the configured rule applies again.
    ctx.autoplay.set_select_new_track(true);
    match ctx.select_next_track(&tracks) {
        AutoplayStep::Play(t) => assert_eq!(t.name, "a"),
        other => panic!("unexpected {other:?}"),
    }
}

#[test]
fn autoplay_stops_when_the_track_is_gone() {
    let tracks = vec![track(1, "a"), track(2, "b")];
    let mut ctx = playing_context(&tracks, 0);
    ctx.autoplay.set_select_new_track(true);
    let others = vec![track(5, "x")];
    assert!(matches!(ctx.select_next_track(&others), AutoplayStep::Stop));
    assert!(ctx.selected_track.is_none());
}

#[test]
fn pseudo_random_shuffle_plays_each_track_once() {
    let tracks = vec![track(1, "a"), track(2, "b"), track(3, "c"), track(4, "d")];
    let mut ctx = playing_context(&tracks, 0);
    ctx.autoplay.set_autoplay(AutoplayType::Shuffle(ShuffleType::PseudoRandom));
    let mut seen = BTreeSet::new();
    seen.insert(0usize);
    for _ in 0..3 {
        ctx.autoplay.set_select_new_track(true);
        assert!(matches!(ctx.select_next_track(&tracks), AutoplayStep::Play(_)));
        let index = ctx.selected_track.as_ref().unwrap().index;
        assert!(seen.insert(index), "row {index} played twice");
    }
    // Everything has been played: the history starts over.
    ctx.autoplay.set_select_new_track(true);
    assert!(matches!(ctx.select_next_track(&tracks), AutoplayStep::Play(_)));
    assert!(ctx.selected_playlist.played_tracks().is_empty());
}

#[test]
fn true_random_shuffle_stays_in_range() {
    let tracks = vec![track(1, "a"), track(2, "b"), track(3, "c")];
    let mut ctx = playing_context(&tracks, 1);
    ctx.autoplay.set_autoplay(AutoplayType::Shuffle(ShuffleType::TrueRandom));
    for _ in 0..10 {
        ctx.skip(PlayDirection::Forward);
        assert!(matches!(ctx.select_next_track(&tracks), AutoplayStep::Play(_)));
        assert!(ctx.selected_track.as_ref().unwrap().index < 3);
    }
}

#[test]
fn autoplay_inside_a_playlist() {
    let all = vec![track(1, "a"), track(2, "b"), track(3, "c")];
    let in_playlist = vec![track(3, "c"), track(1, "a")];
    let mut ctx = playing_context(&all, 2);
    ctx.selected_playlist.set_playlist(Some(PlaylistState::new(playlist(9, "p"), in_playlist)));
    ctx.autoplay.set_select_new_track(true);
    match ctx.select_next_track(&all) {
        AutoplayStep::Play(t) => assert_eq!(t.name, "a"),
        other => panic!("unexpected {other:?}"),
    }
    assert_eq!(ctx.selected_track.as_ref().unwrap().index, 1);
}

#[test]
fn end_of_track_requests_the_next_once() {
    let tracks = vec![track(1, "a")];
    let mut ctx = playing_context(&tracks, 0);
    ctx.control.set_progress(Some(TimeSpan::zero()), Some(secs(0)));
    assert!(!ctx.track_end_reached(secs(179)));
    assert!(ctx.track_end_reached(secs(180)));
    assert!(ctx.control.changing_track);
    assert!(ctx.autoplay.select_new_track());
    assert!(!ctx.track_end_reached(secs(200)));
    assert!(!ctx.seek(secs(10), secs(201)));
}

#[test]
fn seeking_moves_the_position() {
    let tracks = vec![track(1, "a")];
    let mut ctx = playing_context(&tracks, 0);
    assert!(ctx.seek(secs(42), secs(1000)));
    assert_eq!(ctx.control.current_progress(secs(1001)).unwrap().as_secs(), 43);
}

#[test]
fn played_tracks_bookkeeping() {
    let mut sel = SelectedPlaylistContext::default();
    assert!(sel.playlist().is_none());
    assert!(sel.add_played_track(3));
    assert!(!sel.add_played_track(3));
    assert_eq!(sel.played_tracks().len(), 1);
    sel.clear_played_tracks();
    assert!(sel.played_tracks().is_empty());
    sel.set_playlist(Some(PlaylistState::new(playlist(1, "p"), vec![track(1, "a")])));
    let state = sel.playlist().unwrap();
    assert_eq!(state.playlist().name, "p");
    assert_eq!(names(&state.tracks()), vec!["a"]);
}

#[test]
fn cache_keeps_tracks_sorted() {
    let mut cache = CacheContext::new();
    cache.set_playlist_tracks(None, vec![track(1, "c"), track(2, "a"), track(3, "b"), track(4, "a")]);
    let all = cache.playlist_tracks(None).unwrap();
    assert_eq!(names(all), vec!["a", "a", "b", "c"]);
    // Equal names keep their order.
    assert_eq!(all[0].id, 2);
    assert_eq!(all[1].id, 4);

    cache.add_tracks_to_playlist(None, vec![track(5, "bb"), track(6, "0"), track(7, "z")]);
    assert_eq!(names(cache.playlist_tracks(None).unwrap()), vec!["0", "a", "a", "b", "bb", "c", "z"]);

    let p = playlist(10, "mix");
    assert!(cache.playlist_tracks(Some(&p)).is_none());
    cache.add_tracks_to_playlist(Some(&p), vec![track(8, "y"), track(9, "x")]);
    assert_eq!(names(cache.playlist_tracks(Some(&p)).unwrap()), vec!["x", "y"]);
    assert_eq!(cache.playlist_tracks(None).unwrap().len(), 9);
    assert_eq!(cache.playlists().len(), 1);

    cache.add_empty_playlist(&p);
    assert!(cache.playlist_tracks(Some(&p)).unwrap().is_empty());
}

#[test]
fn cache_orders_by_code_point() {
    let mut cache = CacheContext::new();
    cache.set_playlist_tracks(None, vec![track(1, "b"), track(2, "B"), track(3, "é"), track(4, "ab"), track(5, "a")]);
    assert_eq!(names(cache.playlist_tracks(None).unwrap()), vec!["B", "a", "ab", "b", "é"]);
}

#[test]
fn cache_playlists_in_identifier_order() {
    let mut cache = CacheContext::new();
    cache.add_empty_playlist(&playlist(30, "c"));
    cache.add_empty_playlist(&playlist(10, "a"));
    cache.add_empty_playlist(&playlist(20, "b"));
    let ids: Vec<u128> = cache.playlists().iter().map(|p| p.id).collect();
    assert_eq!(ids, vec![10, 20, 30]);
}

#[test]
fn cache_search_results() {
    let mut cache = CacheContext::new();
    cache.set_playlist_tracks(None, vec![track(1, "Lovely"), track(2, "Other"), track(3, "love")]);
    let mut search = TrackSearch::new(&SearchConfig { strategy: SearchMatchingStrategy::ContainsLowercase });
    search.text = "LOV".to_string();
    let results = cache.filter_with(&None, &search).unwrap();
    assert_eq!(names(results), vec!["Lovely", "love"]);
    assert_eq!(names(cache.filtered_tracks(None)), vec!["Lovely", "love"]);

    let p = playlist(4, "p");
    assert!(cache.filter_with(&Some(p.clone()), &search).is_none());
    assert!(cache.filtered_tracks(Some(&p)).is_empty());
    cache.set_playlist_tracks(Some(p.clone()), vec![track(5, "Other love")]);
    assert_eq!(names(cache.filtered_tracks(Some(&p))), vec!["Other love"]);
    search.text = "zzz".to_string();
    assert!(cache.filter_with(&Some(p.clone()), &search).unwrap().is_empty());
    assert!(cache.filtered_tracks(Some(&p)).is_empty());
}

#[test]
fn empty_search_lists_every_track() {
    let mut cache = CacheContext::new();
    cache.set_playlist_tracks(None, vec![track(1, "b"), track(2, "a"), track(3, "c")]);
    let search = TrackSearch::new(&SearchConfig { strategy: SearchMatchingStrategy::Fuzzy });
    let results = cache.filter_with(&None, &search).unwrap();
    assert_eq!(names(results), vec!["a", "b", "c"]);
    assert_eq!(names(cache.filtered_tracks(None)), vec!["a", "b", "c"]);
}

#[test]
fn loaded_tracks_by_identifier() {
    let mut loaded = LoadedTracksContext::new();
    loaded.set(vec![track(1, "b"), track(2, "a")]);
    loaded.add(&track(1, "zzz"));
    loaded.add(&track(3, "c"));
    let mut all = LoadedContext::new();
    all.tracks = loaded;
    assert_eq!(names(&all.tracks()), vec!["a", "b", "c"]);
    assert!(all.tracks.remove(&2));
    assert!(!all.tracks.remove(&2));
    assert_eq!(names(&all.tracks()), vec!["b", "c"]);
    all.tracks.set_filtered(vec![track(3, "c")]);
    assert_eq!(names(all.tracks.filtered()), vec!["c"]);

    let mut playlists = LoadedPlaylistsContext::new();
    playlists.set(vec![playlist(1, "rock"), playlist(2, "jazz")]);
    playlists.add(&playlist(2, "again"));
    playlists.add(&playlist(3, "blues"));
    all.playlists = playlists;
    let got: Vec<String> = all.playlists().iter().map(|p| p.name.clone()).collect();
    assert_eq!(got, vec!["blues", "jazz", "rock"]);
}

#[test]
fn row_play_toggles_or_starts() {
    let mut ctx = Context::new();
    let tracks = vec![track(1, "a"), track(2, "b")];
    let p = playlist(7, "p");
    ctx.cache.set_playlist_tracks(Some(p.clone()), tracks.clone());
    ctx.ui.playlist.set_selected(Some(p.clone()));
    match ctx.toggle_row_play(1, &tracks[1]) {
        RowPlay::Start(t) => assert_eq!(t.name, "b"),
        RowPlay::Toggle => panic!("expected a start"),
    }
    assert_eq!(ctx.ui.playlist.autoplay().unwrap().id, 7);
    let state = ctx.playback.selected_playlist.playlist().unwrap();
    assert_eq!(names(&state.tracks()), vec!["a", "b"]);
    assert!(matches!(ctx.toggle_row_play(1, &tracks[1]), RowPlay::Toggle));
    assert!(matches!(ctx.toggle_row_play(0, &tracks[1]), RowPlay::Start(_)));
    ctx.ui.playlist.set_selected(None);
    assert!(matches!(ctx.toggle_row_play(0, &tracks[0]), RowPlay::Start(_)));
    assert!(ctx.playback.selected_playlist.playlist().is_none());
}

#[test]
fn context_autoplay_uses_all_tracks() {
    let mut ctx = Context::new();
    ctx.cache.set_playlist_tracks(None, vec![track(1, "a"), track(2, "b")]);
    let first = track(1, "a");
    assert!(matches!(ctx.toggle_row_play(0, &first), RowPlay::Start(_)));
    ctx.playback.autoplay.set_select_new_track(true);
    match ctx.select_new_track() {
        AutoplayStep::Play(t) => assert_eq!(t.name, "b"),
        other => panic!("unexpected {other:?}"),
    }
}

#[test]
fn database_events_fill_the_cache() {
    let mut ctx = Context::new();
    ctx.processing.set_processing_tracks(3);
    let p = playlist(5, "p");
    ctx.handle_database_event(Ok(DatabaseEvent::InsertTrack(track(1, "b"), Some(p.clone()))));
    ctx.handle_database_event(Ok(DatabaseEvent::InsertTrack(track(2, "a"), None)));
    assert_eq!(ctx.processing.processing_tracks(), 1);
    assert_eq!(names(ctx.cache.playlist_tracks(None).unwrap()), vec!["a", "b"]);
    assert_eq!(names(ctx.cache.playlist_tracks(Some(&p)).unwrap()), vec!["b"]);

    ctx.handle_database_event(Err(DatabaseError::DuplicateTrack("/x.mp3".to_string())));
    assert_eq!(ctx.processing.processing_tracks(), 0);
    ctx.handle_database_event(Err(DatabaseError::DuplicatePlaylistTrack("/x.mp3".to_string(), p.clone())));
    assert_eq!(ctx.processing.processing_tracks(), 0);

    ctx.handle_database_event(Ok(DatabaseEvent::QueryPlaylists(vec![playlist(6, "q"), playlist(8, "r")])));
    assert_eq!(ctx.cache.playlists().len(), 3);
    ctx.handle_database_event(Ok(DatabaseEvent::InsertPlaylist(playlist(9, "s"))));
    assert_eq!(ctx.cache.playlists().len(), 4);
    ctx.handle_database_event(Ok(DatabaseEvent::QueryTracks(vec![track(3, "z"), track(4, "y")], Some(playlist(6, "q")))));
    assert_eq!(names(ctx.cache.playlist_tracks(Some(&playlist(6, "q"))).unwrap()), vec!["y", "z"]);
    ctx.handle_database_event(Ok(DatabaseEvent::QueryTracks(vec![track(3, "z")], None)));
    assert_eq!(names(ctx.cache.playlist_tracks(None).unwrap()), vec!["z"]);
}

#[test]
fn database_outcomes_and_messages() {
    let p = playlist(5, "Favourites");
    match track_insert_outcome("/a.mp3".to_string(), Some(p.clone()), None) {
        Err(e) => assert_eq!(e.message(), "Track /a.mp3 already exists in playlist Favourites"),
        Ok(_) => panic!("expected a duplicate"),
    }
    match track_insert_outcome("/a.mp3".to_string(), None, None) {
        Err(e) => assert_eq!(e.message(), "Track /a.mp3 already exists in general playlist"),
        Ok(_) => panic!("expected a duplicate"),
    }
    match track_insert_outcome("/a.mp3".to_string(), None, Some(track(1, "a"))) {
        Ok(DatabaseEvent::InsertTrack(t, None)) => assert_eq!(t.id, 1),
        _ => panic!("expected the stored track"),
    }
    assert_eq!(DatabaseError::DuplicatePlaylist.message(), "Playlist already exists");
    assert_eq!(DatabaseError::DatabaseUnavailable.message(), "Database is unavailable");
    assert_eq!(DatabaseError::Unknown.message(), "Unknown error");
    assert!(DatabaseError::DuplicateTrack("/a.mp3".to_string()).is_duplicate());
    assert!(DatabaseError::DuplicatePlaylistTrack("/a.mp3".to_string(), p).is_duplicate());
    assert!(!DatabaseError::DuplicatePlaylist.is_duplicate());
    assert!(!DatabaseError::DatabaseUnavailable.is_duplicate());
    assert!(!DatabaseError::Unknown.is_duplicate());
}

#[test]
fn pausing_fits_unless_the_position_overflows() {
    let tracks = vec![track(1, "a")];
    let mut ctx = playing_context(&tracks, 0);
    let pause = PlayerEvent::TrackPlayingStatus(false);
    assert!(ctx.fits_event(&pause, secs(0)));
    ctx.control.set_progress(Some(TimeSpan::from_parts(u64::MAX, 0)), Some(secs(0)));
    assert!(ctx.fits_event(&pause, TimeSpan::from_parts(0, 999_999_999)));
    assert!(!ctx.fits_event(&pause, secs(1)));
    assert!(ctx.fits_event(&PlayerEvent::TrackPlayingStatus(true), secs(1)));
    assert!(ctx.fits_event(&PlayerEvent::TrackProgress(secs(3)), secs(1)));
}

#[test]
fn autoplay_status_lines() {
    let forward = AutoplayType::Iterative(PlayDirection::Forward);
    let shuffle = AutoplayType::Shuffle(ShuffleType::TrueRandom);
    assert_eq!(autoplay_status_text(&forward, None), "Autoplay: All tracks");
    assert_eq!(autoplay_status_text(&forward, Some(&playlist(1, "Jazz"))), "Autoplay: Jazz");
    assert_eq!(
        autoplay_status_text(&shuffle, Some(&playlist(1, "Jazz"))),
        "Autoplay Shuffle (True Random): Jazz"
    );
    assert_eq!(
        autoplay_status_text(&AutoplayType::Iterative(PlayDirection::Backward), None),
        "Autoplay Reverse: All tracks"
    );
}

#[test]
fn playlist_selection_toggles() {
    let mut ctx = Context::new();
    let p = playlist(3, "p");
    assert_eq!(ctx.ui.playlist.toggle_selection(&p).unwrap().id, 3);
    assert!(ctx.ui.playlist.is_selected(&p));
    assert!(ctx.ui.playlist.toggle_selection(&p).is_none());
    assert!(ctx.ui.playlist.selected().is_none());
}

#[test]
fn track_equality_helpers() {
    let a = track(1, "a");
    let mut b = a.clone();
    assert!(a.same_as(&b));
    b.valid = false;
    assert!(!a.same_as(&b));
    assert!(a.same_hash_as(&b));
    b.hash = None;
    assert!(!a.same_hash_as(&b));
}
