use daemos::formatting::{human_duration, human_duration_secs};
use daemos::text::{concat_strs, str_eq};
use daemos::time::TimeSpan;
use daemos::ui::playlist_name_to_create;

#[test]
fn human_duration_minutes_and_seconds() {
    assert_eq!(human_duration(TimeSpan::from_secs(0), false), "00:00");
    assert_eq!(human_duration(TimeSpan::from_secs(5), false), "00:05");
    assert_eq!(human_duration(TimeSpan::from_secs(65), false), "01:05");
    assert_eq!(human_duration(TimeSpan::from_secs(3599), false), "59:59");
}

#[test]
fn human_duration_hours_shown_when_present() {
    assert_eq!(human_duration(TimeSpan::from_secs(3600), false), "01:00:00");
    assert_eq!(human_duration(TimeSpan::from_secs(3725), false), "01:02:05");
    assert_eq!(human_duration(TimeSpan::from_secs(360_000), false), "100:00:00");
}

#[test]
fn human_duration_hours_on_request() {
    assert_eq!(human_duration(TimeSpan::from_secs(65), true), "00:01:05");
    assert_eq!(human_duration_secs(0, true), "00:00:00");
}

#[test]
fn human_duration_ignores_fractions_of_a_second() {
    assert_eq!(human_duration(TimeSpan::from_parts(61, 999_999_999), false), "01:01");
}

#[test]
fn time_span_arithmetic() {
    let a = TimeSpan::from_parts(1, 500_000_000);
    let b = TimeSpan::from_parts(2, 700_000_000);
    let sum = a.checked_add(&b).unwrap();
    assert_eq!(sum.as_secs(), 4);
    assert_eq!(sum.subsec_nanos(), 200_000_000);
    assert_eq!(b.saturating_sub(&a).as_nanos(), 1_200_000_000);
    assert_eq!(a.saturating_sub(&b).as_nanos(), 0);
    assert!(a.is_shorter_than(&b));
    assert!(!b.is_shorter_than(&a));
    let max = TimeSpan::from_parts(u64::MAX, 999_999_999);
    assert!(max.checked_add(&TimeSpan::from_parts(0, 1)).is_none());
}

#[test]
fn string_helpers() {
    assert!(str_eq("abc", "abc"));
    assert!(!str_eq("abc", "abd"));
    assert!(!str_eq("abc", "ab"));
    assert_eq!(concat_strs("Auto", "play"), "Autoplay");
}

#[test]
fn playlist_names_are_trimmed() {
    assert_eq!(playlist_name_to_create("  Road trip \t\n"), Some("Road trip".to_string()));
    assert_eq!(playlist_name_to_create("Jazz"), Some("Jazz".to_string()));
    assert_eq!(playlist_name_to_create("x"), Some("x".to_string()));
    assert_eq!(playlist_name_to_create("\u{3000}Ünïcode\u{2003}"), Some("Ünïcode".to_string()));
    assert_eq!(playlist_name_to_create("   "), None);
    assert_eq!(playlist_name_to_create(""), None);
}

#[test]
fn time_span_parts_round_trip() {
    let span = TimeSpan::from_parts(65, 500);
    assert_eq!(span.as_secs(), 65);
    assert_eq!(span.subsec_nanos(), 500);
    assert_eq!(span.as_nanos(), 65_000_000_500);
    let longest = TimeSpan::from_parts(u64::MAX, 999_999_999);
    assert_eq!(longest.as_secs(), u64::MAX);
    assert_eq!(longest.subsec_nanos(), 999_999_999);
}

#[test]
fn playlist_names_trim_unicode_white_space_like_str_trim() {
    for code in 0..=0x10FFFFu32 {
        if let Some(c) = char::from_u32(code) {
            let input = format!("{c}x{c}");
            assert_eq!(playlist_name_to_create(&input).as_deref(), Some(input.trim()), "code point {code:#x}");
        }
    }
}
