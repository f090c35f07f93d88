use daemos::files::{folder_playlist_name, get_file_name, is_audio_track_path};
use daemos::regex_extract::{RegexExtract, RegexExtractError};
use daemos::search::{
    search_match_exact, search_match_exact_lower, search_match_fuzzy, SearchConfig,
    SearchMatchingStrategy, TrackSearch,
};

#[test]
fn exact_search_is_a_substring_test() {
    assert!(search_match_exact("love", "Lovely love song"));
    assert!(!search_match_exact("Love song", "Lovely love song"));
    assert!(search_match_exact("", "anything"));
    assert!(search_match_exact("", ""));
    assert!(!search_match_exact("long needle", "short"));
    assert!(search_match_exact("ß", "straße"));
}

#[test]
fn lowercase_search_ignores_ascii_case() {
    assert!(search_match_exact_lower("LOVE SONG", "Lovely love song"));
    assert!(search_match_exact_lower("abc", "xxABCxx"));
    assert!(!search_match_exact_lower("abd", "xxABCxx"));
    // Only ASCII letters are folded.
    assert!(!search_match_exact_lower("É", "é"));
}

#[test]
fn fuzzy_search_matches_in_order() {
    assert!(search_match_fuzzy("abc", "axbycz"));
    assert!(!search_match_fuzzy("abx", "abc"));
    assert!(search_match_fuzzy("", "abc"));
    assert!(!search_match_fuzzy("a", ""));
    // Smart case: lower-case patterns ignore case, upper-case ones do not.
    assert!(search_match_fuzzy("ls", "Lovely Song"));
    assert!(search_match_fuzzy("LS", "Lovely Song"));
    assert!(!search_match_fuzzy("LS", "lovely song"));
    assert!(!search_match_fuzzy("中", "abcdefaghi"));
}

#[test]
fn matcher_follows_the_strategy() {
    let fuzzy = SearchMatchingStrategy::Fuzzy.get_matcher();
    let exact = SearchMatchingStrategy::ContainsExact.get_matcher();
    let lower = SearchMatchingStrategy::ContainsLowercase.get_matcher();
    assert!(fuzzy.matches("ac", "abc"));
    assert!(!exact.matches("ac", "abc"));
    assert!(exact.matches("bc", "abc"));
    assert!(!exact.matches("BC", "abc"));
    assert!(lower.matches("BC", "abc"));
    assert_eq!(SearchMatchingStrategy::Fuzzy.label(), "Fuzzy");
    assert_eq!(SearchMatchingStrategy::ContainsExact.label(), "Contains (exact)");
    assert_eq!(SearchMatchingStrategy::ContainsLowercase.label(), "Contains (lowercase)");
    assert_eq!(SearchMatchingStrategy::default(), SearchMatchingStrategy::Fuzzy);
}

#[test]
fn track_search_lists_everything_while_empty() {
    let config = SearchConfig { strategy: SearchMatchingStrategy::ContainsExact };
    let mut search = TrackSearch::new(&config);
    assert_eq!(search.text, "");
    assert_eq!(search.yielded_results, 0);
    assert!(search.accepts("anything"));
    search.text = "abc".to_string();
    assert!(search.accepts("xabcx"));
    assert!(!search.accepts("xabx"));
}

#[test]
fn file_names_lose_their_extension() {
    assert_eq!(get_file_name("/music/Artist - Song.mp3"), Some("Artist - Song".to_string()));
    assert_eq!(get_file_name("song.flac"), Some("song".to_string()));
    assert_eq!(get_file_name("/music/album/track.01.wav"), Some("track.01".to_string()));
    assert_eq!(get_file_name("/music/weird..mp3"), Some("weird".to_string()));
    assert_eq!(get_file_name("/music/dir/"), Some("dir".to_string()));
}

#[test]
fn file_names_without_extension() {
    assert_eq!(get_file_name("/music/noext"), Some("noext".to_string()));
    // A leading dot is not an extension: the part after it is kept.
    assert_eq!(get_file_name("/home/user/.bashrc"), Some("bashrc".to_string()));
    assert_eq!(get_file_name("/"), None);
    assert_eq!(get_file_name("/music/.."), None);
    assert_eq!(get_file_name(""), None);
}

#[test]
fn audio_tracks_by_extension() {
    assert!(is_audio_track_path("/music/a.mp3"));
    assert!(is_audio_track_path("/music/a.wav"));
    assert!(is_audio_track_path("b.flac"));
    assert!(!is_audio_track_path("/music/a.MP3"));
    assert!(!is_audio_track_path("/music/cover.jpg"));
    assert!(!is_audio_track_path("/music/mp3"));
    assert!(!is_audio_track_path("/music/.mp3"));
}

#[test]
fn folder_playlist_names() {
    assert_eq!(folder_playlist_name("/music/Jazz"), Some("Jazz".to_string()));
    assert_eq!(folder_playlist_name("/music/Jazz/"), Some("Jazz".to_string()));
    assert_eq!(folder_playlist_name("/"), None);
}

#[test]
fn regex_extracts_a_group() {
    let re = RegexExtract::new(r"(\d+)-(\w+)".to_string(), 2).unwrap();
    assert_eq!(re.group_position(), 2);
    assert_eq!(re.extract(), (r"(\d+)-(\w+)".to_string(), 2));
    assert_eq!(re.extract_group("track 12-intro"), Some("intro".to_string()));
    assert_eq!(re.extract_group("no digits here"), None);
    let whole = RegexExtract::new("b+".to_string(), 0).unwrap();
    assert_eq!(whole.extract_group("abbbc"), Some("bbb".to_string()));
    let optional = RegexExtract::new("a(x)?b".to_string(), 1).unwrap();
    assert_eq!(optional.extract_group("ab"), None);
    let beyond = RegexExtract::new("a".to_string(), 3).unwrap();
    assert_eq!(beyond.extract_group("a"), None);
}

#[test]
fn regex_rejects_invalid_patterns() {
    match RegexExtract::new("(unclosed".to_string(), 1) {
        Err(RegexExtractError::InvalidPattern(error)) => {
            assert!(matches!(error, regex::Error::Syntax(_)));
            assert_eq!(Err(error), regex::Regex::new("(unclosed").map(|_| ()));
        }
        Ok(_) => panic!("an invalid pattern was accepted"),
    }
}
