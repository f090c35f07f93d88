use daemos::autoplay::{AutoplayContext, AutoplayType, PlayDirection, ShuffleType};
use daemos::files::track_name_from;
use daemos::processing::ProcessingContext;
use daemos::settings::{settings_outcome, SettingsButton};
use daemos::ui::AppTheme;

const FORWARD: AutoplayType = AutoplayType::Iterative(PlayDirection::Forward);
const SHUFFLE: AutoplayType = AutoplayType::Shuffle(ShuffleType::TrueRandom);

#[test]
fn settings_cancel_resets_and_keeps_autoplay() {
    let mut autoplay = AutoplayContext::default();
    let out = settings_outcome(SettingsButton::Cancel, AppTheme::Mocha, AppTheme::Dark, SHUFFLE, FORWARD, &mut autoplay);
    assert!(!out.apply && !out.save && out.reset && out.close);
    assert_eq!(out.theme, None);
    assert_eq!(*autoplay.autoplay(), FORWARD);
}

#[test]
fn settings_confirm_applies_without_saving() {
    let mut autoplay = AutoplayContext::default();
    let out = settings_outcome(SettingsButton::Confirm, AppTheme::Mocha, AppTheme::Dark, SHUFFLE, FORWARD, &mut autoplay);
    assert!(out.apply && !out.save && !out.reset && out.close);
    assert_eq!(out.theme, Some(AppTheme::Mocha));
    assert_eq!(*autoplay.autoplay(), SHUFFLE);
}

#[test]
fn settings_apply_saves_and_skips_unchanged() {
    let mut autoplay = AutoplayContext::default();
    autoplay.set_autoplay(SHUFFLE);
    let out = settings_outcome(SettingsButton::Apply, AppTheme::Dark, AppTheme::Dark, FORWARD, FORWARD, &mut autoplay);
    assert!(out.apply && out.save && !out.reset && out.close);
    assert_eq!(out.theme, None);
    assert_eq!(*autoplay.autoplay(), SHUFFLE);
}

#[test]
fn track_names_from_file_names() {
    assert_eq!(track_name_from("song.mp3", &Some("mp3".to_string())), "song");
    assert_eq!(track_name_from("song..flac", &Some("flac".to_string())), "song");
    assert_eq!(track_name_from("a.b.wav", &Some("wav".to_string())), "a.b");
    assert_eq!(track_name_from(".hidden", &None), "hidden");
    assert_eq!(track_name_from("plain", &None), "plain");
}

#[test]
fn processing_finishes_saturate() {
    let mut p = ProcessingContext::default();
    p.set_processing_tracks(3);
    for _ in 0..5 {
        p.finished_processing_track();
    }
    assert_eq!(p.processing_tracks(), 0);
    p.set_processing_tracks(7);
    for _ in 0..4 {
        p.finished_processing_track();
    }
    assert_eq!(p.processing_tracks(), 3);
}
