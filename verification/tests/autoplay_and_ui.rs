use daemos::autoplay::{AutoplayContext, AutoplayType, PlayDirection, ShuffleType};
use daemos::config::GeneralConfig;
use daemos::latency::{LatencyContext, PerformanceMetricsContext, RenderLatency, MAX_LATENCY_RECORD_COUNT};
use daemos::processing::ProcessingContext;
use daemos::ui::{AppTheme, ComponentTab, TagTable, UIVisibilityContext};
use std::time::Duration;

const ALL: [AutoplayType; 4] = [
    AutoplayType::Iterative(PlayDirection::Forward),
    AutoplayType::Iterative(PlayDirection::Backward),
    AutoplayType::Shuffle(ShuffleType::PseudoRandom),
    AutoplayType::Shuffle(ShuffleType::TrueRandom),
];

#[test]
fn autoplay_config_names() {
    assert_eq!(ALL[0].config_name(), "iterative_forward");
    assert_eq!(ALL[1].config_name(), "iterative_backward");
    assert_eq!(ALL[2].config_name(), "pseudo_shuffle");
    assert_eq!(ALL[3].config_name(), "true_shuffle");
}

#[test]
fn autoplay_config_round_trip() {
    for autoplay in ALL {
        assert_eq!(AutoplayType::from_config_name(autoplay.config_name()), Some(autoplay));
    }
    assert_eq!(AutoplayType::from_config_name("shuffle"), None);
    assert_eq!(AutoplayType::from_config_name("Iterative_forward"), None);
    assert_eq!(AutoplayType::from_config_name(""), None);
}

#[test]
fn autoplay_labels() {
    assert_eq!(ALL[0].label(), "Forward");
    assert_eq!(ALL[1].label(), "Reverse");
    assert_eq!(ALL[2].label(), "Shuffle (Pseudo Random)");
    assert_eq!(ALL[3].label(), "Shuffle (True Random)");
}

#[test]
fn autoplay_defaults() {
    assert_eq!(AutoplayType::default(), AutoplayType::Iterative(PlayDirection::Forward));
    assert_eq!(PlayDirection::default(), PlayDirection::Forward);
    assert_eq!(ShuffleType::default(), ShuffleType::TrueRandom);
    assert!(!AutoplayType::default().is_shuffle());
    assert!(ALL[2].is_shuffle());
}

#[test]
fn autoplay_context_requests() {
    let mut ctx = AutoplayContext::default();
    assert!(!ctx.select_new_track());
    assert!(!ctx.is_shuffle());
    ctx.set_autoplay(AutoplayType::Shuffle(ShuffleType::TrueRandom));
    assert!(ctx.is_shuffle());
    assert_eq!(*ctx.autoplay(), AutoplayType::Shuffle(ShuffleType::TrueRandom));

    ctx.set_incoming_track(true, Some(AutoplayType::Iterative(PlayDirection::Backward)));
    assert!(ctx.select_new_track());
    assert_eq!(ctx.consume_controlled(), Some(AutoplayType::Iterative(PlayDirection::Backward)));
    assert_eq!(ctx.consume_controlled(), None);
    assert!(ctx.select_new_track());

    ctx.set_incoming_track(true, Some(AutoplayType::Iterative(PlayDirection::Forward)));
    assert_eq!(ctx.consume_incoming_track(), Some(AutoplayType::Iterative(PlayDirection::Forward)));
    assert!(!ctx.select_new_track());
    assert_eq!(ctx.consume_incoming_track(), None);

    ctx.set_select_new_track(true);
    assert!(ctx.select_new_track());
    assert_eq!(*ctx.autoplay(), AutoplayType::Shuffle(ShuffleType::TrueRandom));
}

#[test]
fn processing_never_goes_below_zero() {
    let mut p = ProcessingContext::default();
    assert_eq!(p.processing_tracks(), 0);
    p.finished_processing_track();
    assert_eq!(p.processing_tracks(), 0);
    p.set_processing_tracks(2);
    p.finished_processing_track();
    assert_eq!(p.processing_tracks(), 1);
    p.add_processing_tracks(3);
    assert_eq!(p.processing_tracks(), 4);
    p.add_processing_tracks(usize::MAX);
    assert_eq!(p.processing_tracks(), usize::MAX);
}

#[test]
fn processing_settles_after_each_track_reports() {
    let mut p = ProcessingContext::default();
    p.set_processing_tracks(2);
    p.add_processing_tracks(3);
    assert_eq!(p.processing_tracks(), 5);
    for _ in 0..3 {
        p.finished_processing_track();
    }
    assert_eq!(p.processing_tracks(), 2);
}

#[test]
fn visibility_flags() {
    let mut v = UIVisibilityContext::default();
    assert!(!v.settings() && !v.debug() && !v.debug_playback() && !v.playlist_modal());
    v.toggle_settings();
    assert!(v.settings());
    v.toggle_settings();
    assert!(!v.settings());
    v.set_debug(true);
    v.set_debug_playback(true);
    v.set_playlist_modal(true);
    assert!(v.debug() && v.debug_playback() && v.playlist_modal() && !v.settings());
    *v.settings_mut() = true;
    *v.debug_mut() = false;
    *v.debug_playback_mut() = false;
    *v.playlist_modal_mut() = false;
    assert!(v.settings() && !v.debug() && !v.debug_playback() && !v.playlist_modal());
    v.set_settings(false);
    assert!(!v.settings());
}

#[test]
fn tab_and_theme_names() {
    assert_eq!(ComponentTab::Playlists.title(), "Playlists");
    assert_eq!(ComponentTab::Tracks.title(), "Tracks");
    assert_eq!(ComponentTab::Tags.title(), "Tags");
    assert_eq!(ComponentTab::Tasks.title(), "Tasks");
    assert_eq!(AppTheme::default(), AppTheme::Dark);
    assert_eq!(AppTheme::Dark.label(), "Dark");
    assert_eq!(AppTheme::Latte.label(), "Latte");
    assert_eq!(AppTheme::Frappe.label(), "Frappe");
    assert_eq!(AppTheme::Macchiato.label(), "Macchiato");
    assert_eq!(AppTheme::Mocha.label(), "Mocha");
    assert_eq!(TagTable::default().placeholder(), "I am a tag table");
}

#[test]
fn latency_history_is_bounded_and_newest_first() {
    let mut ctx = LatencyContext::default();
    for ms in 0..(MAX_LATENCY_RECORD_COUNT as u64 + 5) {
        ctx.add(Duration::from_millis(ms));
    }
    let timings = ctx.timings();
    assert_eq!(timings.len(), MAX_LATENCY_RECORD_COUNT);
    assert_eq!(timings[0], Duration::from_millis(MAX_LATENCY_RECORD_COUNT as u64 + 4));
    assert_eq!(timings[MAX_LATENCY_RECORD_COUNT - 1], Duration::from_millis(5));

    let mut render = RenderLatency::default();
    render.add(Duration::from_millis(1));
    render.add(Duration::from_millis(2));
    assert_eq!(render.timings(), vec![Duration::from_millis(2), Duration::from_millis(1)]);

    let mut metrics = PerformanceMetricsContext::default();
    assert!(metrics.render_latency().is_empty());
    metrics.add_render_latency(Duration::from_micros(7));
    assert_eq!(metrics.render_latency().len(), 1);
}

#[test]
fn debug_wireframe_toggles() {
    let mut config = GeneralConfig::default();
    assert!(!config.debug_wireframe && !config.vsync);
    assert!(config.toggle_debug_wireframe());
    assert!(!config.toggle_debug_wireframe());
}
