//! The Spotify catalog adapter: turns the provider's response bodies into
//! the canonical model. Listing responses carry their entries under
//! `items` and page with a `next` URL; search hits carry the track URI
//! that the append endpoint takes.

use vstd::prelude::*;
use crate::json::{
    Json, arr_under, json_parse, opt_at, opt_get, opt_num, opt_str, parse_json, spec_arr_under,
    spec_as_num, spec_as_str, spec_get, spec_opt_at, spec_opt_get, spec_str_or_empty, str_or_empty,
};
use crate::model::{PlaylistEntry, PlaylistEntryView, Track, TrackView};

verus! {

/// The track one entry of a Spotify playlist-track listing describes:
/// the entry wraps the track under `track`; the artist is the first of
/// the track's artists; the recording code sits under `external_ids`.
pub open spec fn spec_spotify_track(j: Json) -> TrackView {
    let track = spec_get(j, "track"@);
    TrackView {
        title: spec_str_or_empty(spec_opt_get(track, "name"@)),
        artist: spec_str_or_empty(
            spec_opt_get(spec_opt_at(spec_opt_get(track, "artists"@), 0), "name"@),
        ),
        isrc: spec_as_str(spec_opt_get(spec_opt_get(track, "external_ids"@), "isrc"@)),
    }
}

/// Extracts one track from one entry of a Spotify track listing.
pub fn spotify_track(j: &Json) -> (r: Track)
    ensures
        r@ == spec_spotify_track(*j),
{
    let track = opt_get(Some(j), "track");
    let title = str_or_empty(opt_get(track, "name"));
    let artist = str_or_empty(opt_get(opt_at(opt_get(track, "artists"), 0), "name"));
    let isrc = opt_str(opt_get(opt_get(track, "external_ids"), "isrc"));
    Track { title, artist, isrc }
}

/// The tracks of one Spotify track-listing page.
pub open spec fn spec_spotify_tracks(j: Json) -> Seq<TrackView> {
    spec_arr_under(j, "items"@).map_values(|t: Json| spec_spotify_track(t))
}

/// The URL of the next page of a Spotify listing, where one is left.
pub open spec fn spec_spotify_next(j: Json) -> Option<Seq<char>> {
    spec_as_str(spec_get(j, "next"@))
}

/// Extracts the tracks and the next-page URL of one Spotify
/// track-listing page.
pub fn spotify_tracks_page(j: &Json) -> (r: (Vec<Track>, Option<String>))
    ensures
        r.0.deep_view() == spec_spotify_tracks(*j),
        r.1.deep_view() == spec_spotify_next(*j),
{
    let next = opt_str(opt_get(Some(j), "next"));
    let mut out: Vec<Track> = Vec::new();
    let ghost f = |t: Json| spec_spotify_track(t);
    match arr_under(j, "items") {
        Some(items) => {
            let n = items.len();
            let mut i: usize = 0;
            while i < n
                invariant
                    n == items@.len(),
                    i <= n,
                    out@.len() == i,
                    forall|k: int|
                        0 <= k < i ==> out@[k]@ == spec_spotify_track(#[trigger] items@[k]),
                decreases n - i,
            {
                let t = spotify_track(&items[i]);
                out.push(t);
                i += 1;
            }
            proof {
                assert forall|k: int| 0 <= k < n implies out.deep_view()[k] == items@.map_values(
                    f,
                )[k] by {
                    assert(out.deep_view()[k] == out@[k]@);
                    assert(items@.map_values(f)[k] == f(items@[k]));
                }
                assert(out.deep_view() =~= items@.map_values(f));
            }
            (out, next)
        },
        None => {
            proof {
                assert(out.deep_view() =~= spec_arr_under(*j, "items"@).map_values(f));
            }
            (out, next)
        },
    }
}

/// The playlist header one entry of a Spotify playlist listing
/// describes: identifier, name, the first cover image, and the track
/// total the entry's metadata reports.
pub open spec fn spec_spotify_entry(j: Json) -> PlaylistEntryView {
    PlaylistEntryView {
        id: spec_str_or_empty(spec_get(j, "id"@)),
        name: spec_str_or_empty(spec_get(j, "name"@)),
        cover: spec_str_or_empty(
            spec_opt_get(spec_opt_at(spec_get(j, "images"@), 0), "url"@),
        ),
        meta_total: spec_as_num(spec_opt_get(spec_get(j, "tracks"@), "total"@)),
        tracks_href: None,
    }
}

/// Extracts one playlist header from one entry of a Spotify playlist
/// listing.
pub fn spotify_entry(j: &Json) -> (r: PlaylistEntry)
    ensures
        r@ == spec_spotify_entry(*j),
{
    let id = str_or_empty(opt_get(Some(j), "id"));
    let name = str_or_empty(opt_get(Some(j), "name"));
    let cover = str_or_empty(opt_get(opt_at(opt_get(Some(j), "images"), 0), "url"));
    let meta_total = opt_num(opt_get(opt_get(Some(j), "tracks"), "total"));
    PlaylistEntry { id, name, cover, meta_total, tracks_href: None }
}

/// The playlist headers of one Spotify playlist-listing page.
pub open spec fn spec_spotify_entries(j: Json) -> Seq<PlaylistEntryView> {
    spec_arr_under(j, "items"@).map_values(|e: Json| spec_spotify_entry(e))
}

/// Extracts the playlist headers and the next-page URL of one Spotify
/// playlist-listing page.
pub fn spotify_playlists_page(j: &Json) -> (r: (Vec<PlaylistEntry>, Option<String>))
    ensures
        r.0.deep_view() == spec_spotify_entries(*j),
        r.1.deep_view() == spec_spotify_next(*j),
{
    let next = opt_str(opt_get(Some(j), "next"));
    let mut out: Vec<PlaylistEntry> = Vec::new();
    let ghost f = |e: Json| spec_spotify_entry(e);
    match arr_under(j, "items") {
        Some(items) => {
            let n = items.len();
            let mut i: usize = 0;
            while i < n
                invariant
                    n == items@.len(),
                    i <= n,
                    out@.len() == i,
                    forall|k: int|
                        0 <= k < i ==> out@[k]@ == spec_spotify_entry(#[trigger] items@[k]),
                decreases n - i,
            {
                let e = spotify_entry(&items[i]);
                out.push(e);
                i += 1;
            }
            proof {
                assert forall|k: int| 0 <= k < n implies out.deep_view()[k] == items@.map_values(
                    f,
                )[k] by {
                    assert(out.deep_view()[k] == out@[k]@);
                    assert(items@.map_values(f)[k] == f(items@[k]));
                }
                assert(out.deep_view() =~= items@.map_values(f));
            }
            (out, next)
        },
        None => {
            proof {
                assert(out.deep_view() =~= spec_arr_under(*j, "items"@).map_values(f));
            }
            (out, next)
        },
    }
}

/// The identifier a Spotify creation or profile response carries at its
/// top level.
pub open spec fn spec_spotify_top_id(j: Json) -> Option<Seq<char>> {
    spec_as_str(spec_get(j, "id"@))
}

/// The URI the top-ranked hit of a Spotify track search carries: the
/// `uri` of the first element under `tracks.items`.
pub open spec fn spec_spotify_hit(j: Json) -> Option<Seq<char>> {
    spec_as_str(
        spec_opt_get(
            spec_opt_at(spec_opt_get(spec_get(j, "tracks"@), "items"@), 0),
            "uri"@,
        ),
    )
}

/// The tracks and next-page URL of a Spotify track-listing body, or
/// nothing where the body is not JSON: an unparsable listing fails the
/// fetch, while any missing field inside a parsed one degrades to its
/// default.
pub fn spotify_parse_tracks(body: &str) -> (r: Option<(Vec<Track>, Option<String>)>)
    ensures
        match json_parse(body@) {
            Some(j) => r matches Some(page) && page.0.deep_view() == spec_spotify_tracks(j)
                && page.1.deep_view() == spec_spotify_next(j),
            None => r is None,
        },
{
    match parse_json(body) {
        Some(j) => Some(spotify_tracks_page(&j)),
        None => None,
    }
}

/// The playlist headers and next-page URL of a Spotify playlist-listing
/// body, or nothing where the body is not JSON.
pub fn spotify_parse_playlists(body: &str) -> (r: Option<(Vec<PlaylistEntry>, Option<String>)>)
    ensures
        match json_parse(body@) {
            Some(j) => r matches Some(page) && page.0.deep_view() == spec_spotify_entries(j)
                && page.1.deep_view() == spec_spotify_next(j),
            None => r is None,
        },
{
    match parse_json(body) {
        Some(j) => Some(spotify_playlists_page(&j)),
        None => None,
    }
}

/// The created playlist's identifier out of a Spotify creation response
/// body; nothing where the body is not JSON or carries no identifier.
pub fn spotify_created_playlist_id(body: &str) -> (r: Option<String>)
    ensures
        r.deep_view() == match json_parse(body@) {
            Some(j) => spec_spotify_top_id(j),
            None => None::<Seq<char>>,
        },
{
    match parse_json(body) {
        Some(j) => opt_str(opt_get(Some(&j), "id")),
        None => None,
    }
}

/// The authenticated user's identifier out of a Spotify profile response
/// body; the creation endpoint's URL is built from it.
pub fn spotify_user_id(body: &str) -> (r: Option<String>)
    ensures
        r.deep_view() == match json_parse(body@) {
            Some(j) => spec_spotify_top_id(j),
            None => None::<Seq<char>>,
        },
{
    match parse_json(body) {
        Some(j) => opt_str(opt_get(Some(&j), "id")),
        None => None,
    }
}

/// The destination URI a Spotify search body yields, if any; a body that
/// is not JSON counts as no match.
pub fn spotify_search_track_uri(body: &str) -> (r: Option<String>)
    ensures
        r.deep_view() == match json_parse(body@) {
            Some(j) => spec_spotify_hit(j),
            None => None::<Seq<char>>,
        },
{
    match parse_json(body) {
        Some(j) => opt_str(
            opt_get(opt_at(opt_get(opt_get(Some(&j), "tracks"), "items"), 0), "uri"),
        ),
        None => None,
    }
}

} // verus!
