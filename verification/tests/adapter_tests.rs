use replaylist::apple::{
    apple_created_playlist_id, apple_parse_playlists, apple_parse_tracks, apple_search_isrc_id,
    apple_search_text_id,
};
use replaylist::spotify::{
    spotify_created_playlist_id, spotify_parse_playlists, spotify_parse_tracks,
    spotify_search_track_uri, spotify_user_id,
};
use replaylist::youtube::{
    youtube_created_playlist_id, youtube_parse_playlists, youtube_parse_tracks,
    youtube_search_video_id,
};

#[test]
fn apple_tracks_body_yields_tracks_and_cursor() {
    let body = r#"{
        "data": [
            {"attributes": {"name": "Song A", "artistName": "Artist A", "isrc": "JPA011234567"}},
            {"attributes": {"name": "Song B", "artistName": "Artist B"}}
        ],
        "next": "/v1/me/library/playlists/p.1/tracks?offset=100"
    }"#;
    let (tracks, next) = apple_parse_tracks(body).expect("well-formed listing");
    assert_eq!(tracks.len(), 2);
    assert_eq!(tracks[0].title, "Song A");
    assert_eq!(tracks[0].artist, "Artist A");
    assert_eq!(tracks[0].isrc.as_deref(), Some("JPA011234567"));
    assert_eq!(tracks[1].title, "Song B");
    assert_eq!(tracks[1].isrc, None);
    assert_eq!(
        next.as_deref(),
        Some("/v1/me/library/playlists/p.1/tracks?offset=100")
    );
}

#[test]
fn apple_unparsable_listing_fails_the_fetch() {
    assert!(apple_parse_tracks("not json {").is_none());
}

#[test]
fn apple_missing_fields_degrade_to_defaults() {
    let body = r#"{"data": [{"attributes": {"name": 7}}, {}]}"#;
    let (tracks, next) = apple_parse_tracks(body).expect("well-formed listing");
    assert_eq!(tracks.len(), 2);
    assert_eq!(tracks[0].title, "");
    assert_eq!(tracks[0].artist, "");
    assert_eq!(tracks[0].isrc, None);
    assert_eq!(tracks[1].title, "");
    assert_eq!(next, None);
}

#[test]
fn apple_playlists_body_yields_normalized_entries() {
    let body = r#"{
        "data": [
            {
                "id": "p.1",
                "attributes": {
                    "name": "Mix",
                    "artwork": {"url": "https://a/{w}x{h}bb.{f}"}
                },
                "relationships": {
                    "tracks": {
                        "href": "/v1/me/library/playlists/p.1/tracks",
                        "meta": {"total": 120}
                    }
                }
            }
        ]
    }"#;
    let (entries, next) = apple_parse_playlists(body).expect("well-formed listing");
    assert_eq!(entries.len(), 1);
    assert_eq!(entries[0].id, "p.1");
    assert_eq!(entries[0].name, "Mix");
    assert_eq!(entries[0].cover, "https://a/300x300bb.jpg");
    assert_eq!(entries[0].meta_total, Some(120));
    assert_eq!(
        entries[0].tracks_href.as_deref(),
        Some("/v1/me/library/playlists/p.1/tracks")
    );
    assert_eq!(next, None);
}

#[test]
fn apple_create_response_yields_playlist_id() {
    let body = r#"{"data": [{"id": "p.new", "type": "library-playlists"}]}"#;
    assert_eq!(apple_created_playlist_id(body).as_deref(), Some("p.new"));
    assert_eq!(apple_created_playlist_id(r#"{"data": []}"#), None);
    assert_eq!(apple_created_playlist_id("garbage"), None);
}

#[test]
fn apple_isrc_lookup_takes_first_hit() {
    let body = r#"{"data": [{"id": "song-1"}, {"id": "song-2"}]}"#;
    assert_eq!(apple_search_isrc_id(body).as_deref(), Some("song-1"));
    assert_eq!(apple_search_isrc_id(r#"{"data": []}"#), None);
}

#[test]
fn apple_text_search_takes_top_ranked_song() {
    let body = r#"{"results": {"songs": {"data": [{"id": "song-9"}]}}}"#;
    assert_eq!(apple_search_text_id(body).as_deref(), Some("song-9"));
    assert_eq!(apple_search_text_id(r#"{"results": {}}"#), None);
}

#[test]
fn spotify_tracks_body_yields_tracks_and_next_url() {
    let body = r#"{
        "items": [
            {"track": {"name": "Song A", "artists": [{"name": "Artist A"}, {"name": "Feat B"}],
                       "external_ids": {"isrc": "USRC17607839"}}},
            {"track": {"name": "Song B", "artists": [], "external_ids": {}}}
        ],
        "next": "https://api.spotify.com/v1/playlists/x/tracks?offset=100"
    }"#;
    let (tracks, next) = spotify_parse_tracks(body).expect("well-formed listing");
    assert_eq!(tracks.len(), 2);
    assert_eq!(tracks[0].title, "Song A");
    assert_eq!(tracks[0].artist, "Artist A");
    assert_eq!(tracks[0].isrc.as_deref(), Some("USRC17607839"));
    assert_eq!(tracks[1].artist, "");
    assert_eq!(tracks[1].isrc, None);
    assert_eq!(
        next.as_deref(),
        Some("https://api.spotify.com/v1/playlists/x/tracks?offset=100")
    );
}

#[test]
fn spotify_final_page_names_no_next() {
    let body = r#"{"items": [], "next": null}"#;
    let (tracks, next) = spotify_parse_tracks(body).expect("well-formed listing");
    assert_eq!(tracks.len(), 0);
    assert_eq!(next, None);
}

#[test]
fn spotify_playlists_body_yields_entries() {
    let body = r#"{
        "items": [
            {"id": "pl1", "name": "Mix", "images": [{"url": "https://i/cover.jpg"}],
             "tracks": {"total": 42}}
        ],
        "next": null
    }"#;
    let (entries, next) = spotify_parse_playlists(body).expect("well-formed listing");
    assert_eq!(entries.len(), 1);
    assert_eq!(entries[0].id, "pl1");
    assert_eq!(entries[0].name, "Mix");
    assert_eq!(entries[0].cover, "https://i/cover.jpg");
    assert_eq!(entries[0].meta_total, Some(42));
    assert_eq!(entries[0].tracks_href, None);
    assert_eq!(next, None);
}

#[test]
fn spotify_create_and_profile_read_top_level_id() {
    assert_eq!(
        spotify_created_playlist_id(r#"{"id": "newpl"}"#).as_deref(),
        Some("newpl")
    );
    assert_eq!(spotify_created_playlist_id(r#"{}"#), None);
    assert_eq!(spotify_user_id(r#"{"id": "user1"}"#).as_deref(), Some("user1"));
    assert_eq!(spotify_user_id("oops"), None);
}

#[test]
fn spotify_search_takes_top_ranked_uri() {
    let body = r#"{"tracks": {"items": [{"uri": "spotify:track:abc"}, {"uri": "spotify:track:xyz"}]}}"#;
    assert_eq!(
        spotify_search_track_uri(body).as_deref(),
        Some("spotify:track:abc")
    );
    assert_eq!(spotify_search_track_uri(r#"{"tracks": {"items": []}}"#), None);
}

#[test]
fn youtube_tracks_body_strips_topic_suffix() {
    let body = r#"{
        "items": [
            {"snippet": {"title": "Song A", "videoOwnerChannelTitle": "Artist A - Topic"}},
            {"snippet": {"title": "Song B", "videoOwnerChannelTitle": "Artist B"}}
        ],
        "nextPageToken": "CAUQAA"
    }"#;
    let (tracks, next) = youtube_parse_tracks(body).expect("well-formed listing");
    assert_eq!(tracks.len(), 2);
    assert_eq!(tracks[0].title, "Song A");
    assert_eq!(tracks[0].artist, "Artist A");
    assert_eq!(tracks[0].isrc, None);
    assert_eq!(tracks[1].artist, "Artist B");
    assert_eq!(next.as_deref(), Some("CAUQAA"));
}

#[test]
fn youtube_playlists_body_yields_entries() {
    let body = r#"{
        "items": [
            {"id": "yt1", "snippet": {"title": "Mix",
                "thumbnails": {"medium": {"url": "https://i.ytimg.com/m.jpg"}}}}
        ]
    }"#;
    let (entries, next) = youtube_parse_playlists(body).expect("well-formed listing");
    assert_eq!(entries.len(), 1);
    assert_eq!(entries[0].id, "yt1");
    assert_eq!(entries[0].name, "Mix");
    assert_eq!(entries[0].cover, "https://i.ytimg.com/m.jpg");
    assert_eq!(entries[0].meta_total, None);
    assert_eq!(next, None);
}

#[test]
fn youtube_create_and_search_extraction() {
    assert_eq!(
        youtube_created_playlist_id(r#"{"id": "plx"}"#).as_deref(),
        Some("plx")
    );
    assert_eq!(youtube_created_playlist_id("{}"), None);
    let body = r#"{"items": [{"id": {"kind": "youtube#video", "videoId": "v123"}}]}"#;
    assert_eq!(youtube_search_video_id(body).as_deref(), Some("v123"));
    assert_eq!(youtube_search_video_id(r#"{"items": []}"#), None);
}
