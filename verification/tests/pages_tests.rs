use replaylist::fetch::assemble_playlist;
use replaylist::model::{PlaylistEntry, Provider, Track};
use replaylist::model::{is_success_status, require_credential, should_refresh_and_retry};
use replaylist::pages::PageCollector;

#[test]
fn three_pages_of_twenty_yield_exactly_sixty() {
    let mut c: PageCollector<u32> = PageCollector::new();
    let page1: Vec<u32> = (0..20).collect();
    let page2: Vec<u32> = (20..40).collect();
    let page3: Vec<u32> = (40..60).collect();
    c.absorb(page1, true);
    c.absorb(page2, true);
    c.absorb(page3, false);
    assert!(c.exhausted);
    let items = c.into_items();
    assert_eq!(items.len(), 60);
    for (i, v) in items.iter().enumerate() {
        assert_eq!(*v, i as u32);
    }
}

#[test]
fn a_single_page_listing_closes_at_once() {
    let mut c: PageCollector<u32> = PageCollector::new();
    assert!(!c.exhausted);
    c.absorb(vec![7, 8], false);
    assert!(c.exhausted);
    assert_eq!(c.into_items(), vec![7, 8]);
}

#[test]
fn an_empty_final_page_adds_nothing() {
    let mut c: PageCollector<u32> = PageCollector::new();
    c.absorb(vec![1], true);
    c.absorb(Vec::new(), false);
    assert_eq!(c.into_items(), vec![1]);
}

fn entry(meta_total: Option<u64>) -> PlaylistEntry {
    PlaylistEntry {
        id: String::from("pl1"),
        name: String::from("Mix"),
        cover: String::from("https://i/cover.jpg"),
        meta_total,
        tracks_href: None,
    }
}

fn some_tracks() -> Vec<Track> {
    vec![
        Track {
            title: String::from("Song"),
            artist: String::from("Artist"),
            isrc: None,
        },
    ]
}

#[test]
fn fetched_tracks_fill_the_playlist() {
    let (item, flagged) = assemble_playlist(entry(None), Some(some_tracks()));
    assert!(!flagged);
    assert_eq!(item.id, "pl1");
    assert_eq!(item.name, "Mix");
    assert_eq!(item.cover, "https://i/cover.jpg");
    assert_eq!(item.track_count, 1);
    assert_eq!(item.tracks.len(), 1);
}

#[test]
fn provider_metadata_total_wins_over_fetched_length() {
    let (item, flagged) = assemble_playlist(entry(Some(120)), Some(some_tracks()));
    assert!(!flagged);
    assert_eq!(item.track_count, 120);
}

#[test]
fn failed_track_fetch_degrades_and_flags_one_playlist() {
    let (item, flagged) = assemble_playlist(entry(None), None);
    assert!(flagged);
    assert_eq!(item.tracks.len(), 0);
    assert_eq!(item.track_count, 0);
    assert_eq!(item.id, "pl1");
}

#[test]
fn missing_credential_is_named_per_provider() {
    let r = require_credential(None, Provider::YouTube);
    let e = r.expect_err("no credential held");
    assert_eq!(e.message(), "not authenticated for youtube");
    let ok = require_credential(Some(String::from("tok")), Provider::Spotify);
    assert_eq!(ok.expect("credential held"), "tok");
}

#[test]
fn status_classification_and_single_refresh_retry() {
    assert!(is_success_status(200));
    assert!(is_success_status(299));
    assert!(!is_success_status(199));
    assert!(!is_success_status(403));
    assert!(should_refresh_and_retry(401, false));
    assert!(!should_refresh_and_retry(401, true));
    assert!(!should_refresh_and_retry(500, false));
}
