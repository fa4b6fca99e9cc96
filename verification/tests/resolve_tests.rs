use replaylist::model::{MatchMethod, Provider, Track};
use replaylist::resolve::{
    first_search_mode, has_isrc, resolve_step, search_query, supports_isrc, unmatched_result,
    ResolveStep, SearchMode,
};

fn track_with_isrc() -> Track {
    Track {
        title: String::from("Song"),
        artist: String::from("Artist"),
        isrc: Some(String::from("USRC17607839")),
    }
}

fn track_without_isrc() -> Track {
    Track {
        title: String::from("Song"),
        artist: String::from("Artist"),
        isrc: None,
    }
}

#[test]
fn isrc_mode_is_attempted_first_when_code_present() {
    let t = track_with_isrc();
    assert_eq!(first_search_mode(Provider::Spotify, &t), SearchMode::Isrc);
    assert_eq!(first_search_mode(Provider::Apple, &t), SearchMode::Isrc);
}

#[test]
fn text_mode_is_first_without_code() {
    let t = track_without_isrc();
    assert_eq!(first_search_mode(Provider::Spotify, &t), SearchMode::Text);
}

#[test]
fn empty_code_counts_as_absent() {
    let t = Track {
        title: String::from("Song"),
        artist: String::from("Artist"),
        isrc: Some(String::new()),
    };
    assert!(!has_isrc(&t));
    assert_eq!(first_search_mode(Provider::Apple, &t), SearchMode::Text);
}

#[test]
fn youtube_never_searches_by_code() {
    assert!(!supports_isrc(Provider::YouTube));
    let t = track_with_isrc();
    assert_eq!(first_search_mode(Provider::YouTube, &t), SearchMode::Text);
}

#[test]
fn code_hit_settles_with_isrc_method() {
    let t = track_with_isrc();
    match resolve_step(&t, SearchMode::Isrc, Some(String::from("dest-1"))) {
        ResolveStep::Done(m) => {
            assert_eq!(m.destination_id.as_deref(), Some("dest-1"));
            assert_eq!(m.method, MatchMethod::Isrc);
            assert_eq!(m.source_track.title, "Song");
        }
        ResolveStep::SearchText => panic!("a code hit settles the track"),
    }
}

#[test]
fn code_miss_falls_back_to_text_search() {
    let t = track_with_isrc();
    assert!(matches!(
        resolve_step(&t, SearchMode::Isrc, None),
        ResolveStep::SearchText
    ));
}

#[test]
fn text_hit_settles_with_text_method() {
    let t = track_without_isrc();
    match resolve_step(&t, SearchMode::Text, Some(String::from("dest-2"))) {
        ResolveStep::Done(m) => {
            assert_eq!(m.destination_id.as_deref(), Some("dest-2"));
            assert_eq!(m.method, MatchMethod::TitleArtistSearch);
        }
        ResolveStep::SearchText => panic!("text mode settles the track"),
    }
}

#[test]
fn text_miss_leaves_track_unmatched() {
    let t = track_without_isrc();
    match resolve_step(&t, SearchMode::Text, None) {
        ResolveStep::Done(m) => {
            assert_eq!(m.destination_id, None);
            assert_eq!(m.method, MatchMethod::Unmatched);
        }
        ResolveStep::SearchText => panic!("text mode settles the track"),
    }
}

#[test]
fn resolving_twice_with_same_outcomes_is_identical() {
    let t = track_with_isrc();
    let first = resolve_step(&t, SearchMode::Isrc, Some(String::from("dest-1")));
    let second = resolve_step(&t, SearchMode::Isrc, Some(String::from("dest-1")));
    match (first, second) {
        (ResolveStep::Done(a), ResolveStep::Done(b)) => {
            assert_eq!(a.destination_id, b.destination_id);
            assert_eq!(a.method, b.method);
        }
        _ => panic!("both runs settle the track"),
    }
}

#[test]
fn failed_resolution_records_unmatched() {
    let t = track_with_isrc();
    let m = unmatched_result(&t);
    assert_eq!(m.destination_id, None);
    assert_eq!(m.method, MatchMethod::Unmatched);
    assert_eq!(m.source_track.title, "Song");
}

#[test]
fn queries_follow_each_destination_dialect() {
    let t = track_with_isrc();
    assert_eq!(
        search_query(Provider::Spotify, &t, SearchMode::Isrc),
        "isrc:USRC17607839"
    );
    assert_eq!(
        search_query(Provider::Apple, &t, SearchMode::Isrc),
        "USRC17607839"
    );
    assert_eq!(
        search_query(Provider::Spotify, &t, SearchMode::Text),
        "track:\"Song\" artist:\"Artist\""
    );
    assert_eq!(
        search_query(Provider::YouTube, &t, SearchMode::Text),
        "Song Artist"
    );
    assert_eq!(
        search_query(Provider::Apple, &t, SearchMode::Text),
        "Song Artist"
    );
}
