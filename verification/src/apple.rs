//! The Apple Music catalog adapter: turns the provider's response bodies
//! into the canonical model. Listing responses carry their entries under
//! `data` and page with a `next` path; cover-art URLs arrive as size and
//! format templates and are normalized here.

use vstd::prelude::*;
use crate::json::{
    Json, arr_under, json_parse, opt_at, opt_get, opt_num, opt_str, parse_json, spec_arr_under,
    spec_as_num, spec_as_str, spec_get, spec_opt_at, spec_opt_get, spec_str_or_empty,
    str_or_empty,
};
use crate::model::{PlaylistEntry, PlaylistEntryView, Track, TrackView};
use crate::text::{normalize_cover_url, spec_normalize_cover_url};

verus! {

/// The track one entry of an Apple track listing describes: name and
/// artist under `attributes`, absent fields degrading to empty text, the
/// recording code kept only where present.
pub open spec fn spec_apple_track(j: Json) -> TrackView {
    let attrs = spec_get(j, "attributes"@);
    TrackView {
        title: spec_str_or_empty(spec_opt_get(attrs, "name"@)),
        artist: spec_str_or_empty(spec_opt_get(attrs, "artistName"@)),
        isrc: spec_as_str(spec_opt_get(attrs, "isrc"@)),
    }
}

/// Extracts one track from one entry of an Apple track listing.
pub fn apple_track(j: &Json) -> (r: Track)
    ensures
        r@ == spec_apple_track(*j),
{
    let attrs = opt_get(Some(j), "attributes");
    let title = str_or_empty(opt_get(attrs, "name"));
    let artist = str_or_empty(opt_get(attrs, "artistName"));
    let isrc = opt_str(opt_get(attrs, "isrc"));
    Track { title, artist, isrc }
}

/// The tracks of one Apple track-listing page.
pub open spec fn spec_apple_tracks(j: Json) -> Seq<TrackView> {
    spec_arr_under(j, "data"@).map_values(|t: Json| spec_apple_track(t))
}

/// The cursor of the next page of an Apple listing, where one is left.
pub open spec fn spec_apple_next(j: Json) -> Option<Seq<char>> {
    spec_as_str(spec_get(j, "next"@))
}

/// Extracts the tracks and the next-page cursor of one Apple
/// track-listing page.
pub fn apple_tracks_page(j: &Json) -> (r: (Vec<Track>, Option<String>))
    ensures
        r.0.deep_view() == spec_apple_tracks(*j),
        r.1.deep_view() == spec_apple_next(*j),
{
    let next = opt_str(opt_get(Some(j), "next"));
    let mut out: Vec<Track> = Vec::new();
    let ghost f = |t: Json| spec_apple_track(t);
    match arr_under(j, "data") {
        Some(items) => {
            let n = items.len();
            let mut i: usize = 0;
            while i < n
                invariant
                    n == items@.len(),
                    i <= n,
                    out@.len() == i,
                    forall|k: int|
                        0 <= k < i ==> out@[k]@ == spec_apple_track(#[trigger] items@[k]),
                decreases n - i,
            {
                let t = apple_track(&items[i]);
                out.push(t);
                i += 1;
            }
            proof {
                assert forall|k: int| 0 <= k < n implies out.deep_view()[k] == items@.map_values(
                    f,
                )[k] by {
                    assert(out.deep_view()[k] == out@[k]@);
                    assert(items@.map_values(f)[k] == f(items@[k]));
                }
                assert(out.deep_view() =~= items@.map_values(f));
            }
            (out, next)
        },
        None => {
            proof {
                assert(out.deep_view() =~= spec_arr_under(*j, "data"@).map_values(f));
            }
            (out, next)
        },
    }
}

/// The playlist header one entry of an Apple playlist listing describes:
/// identifier, name, the cover template normalized to a fixed size and
/// format, the track total the entry's metadata reports, and the
/// entry's own track-listing path.
pub open spec fn spec_apple_entry(j: Json) -> PlaylistEntryView {
    let attrs = spec_get(j, "attributes"@);
    let rel_tracks = spec_opt_get(spec_get(j, "relationships"@), "tracks"@);
    PlaylistEntryView {
        id: spec_str_or_empty(spec_get(j, "id"@)),
        name: spec_str_or_empty(spec_opt_get(attrs, "name"@)),
        cover: spec_normalize_cover_url(
            spec_str_or_empty(spec_opt_get(spec_opt_get(attrs, "artwork"@), "url"@)),
        ),
        meta_total: spec_as_num(spec_opt_get(spec_opt_get(rel_tracks, "meta"@), "total"@)),
        tracks_href: spec_as_str(spec_opt_get(rel_tracks, "href"@)),
    }
}

/// Extracts one playlist header from one entry of an Apple playlist
/// listing.
pub fn apple_entry(j: &Json) -> (r: PlaylistEntry)
    ensures
        r@ == spec_apple_entry(*j),
{
    let attrs = opt_get(Some(j), "attributes");
    let rel_tracks = opt_get(opt_get(Some(j), "relationships"), "tracks");
    let id = str_or_empty(opt_get(Some(j), "id"));
    let name = str_or_empty(opt_get(attrs, "name"));
    let raw_cover = str_or_empty(opt_get(opt_get(attrs, "artwork"), "url"));
    let cover = normalize_cover_url(raw_cover.as_str());
    let meta_total = opt_num(opt_get(opt_get(rel_tracks, "meta"), "total"));
    let tracks_href = opt_str(opt_get(rel_tracks, "href"));
    PlaylistEntry { id, name, cover, meta_total, tracks_href }
}

/// The playlist headers of one Apple playlist-listing page.
pub open spec fn spec_apple_entries(j: Json) -> Seq<PlaylistEntryView> {
    spec_arr_under(j, "data"@).map_values(|e: Json| spec_apple_entry(e))
}

/// Extracts the playlist headers and the next-page cursor of one Apple
/// playlist-listing page.
pub fn apple_playlists_page(j: &Json) -> (r: (Vec<PlaylistEntry>, Option<String>))
    ensures
        r.0.deep_view() == spec_apple_entries(*j),
        r.1.deep_view() == spec_apple_next(*j),
{
    let next = opt_str(opt_get(Some(j), "next"));
    let mut out: Vec<PlaylistEntry> = Vec::new();
    let ghost f = |e: Json| spec_apple_entry(e);
    match arr_under(j, "data") {
        Some(items) => {
            let n = items.len();
            let mut i: usize = 0;
            while i < n
                invariant
                    n == items@.len(),
                    i <= n,
                    out@.len() == i,
                    forall|k: int|
                        0 <= k < i ==> out@[k]@ == spec_apple_entry(#[trigger] items@[k]),
                decreases n - i,
            {
                let e = apple_entry(&items[i]);
                out.push(e);
                i += 1;
            }
            proof {
                assert forall|k: int| 0 <= k < n implies out.deep_view()[k] == items@.map_values(
                    f,
                )[k] by {
                    assert(out.deep_view()[k] == out@[k]@);
                    assert(items@.map_values(f)[k] == f(items@[k]));
                }
                assert(out.deep_view() =~= items@.map_values(f));
            }
            (out, next)
        },
        None => {
            proof {
                assert(out.deep_view() =~= spec_arr_under(*j, "data"@).map_values(f));
            }
            (out, next)
        },
    }
}

/// The identifier of the playlist an Apple creation response reports:
/// the `id` of the first element under `data`.
pub open spec fn spec_apple_created_id(j: Json) -> Option<Seq<char>> {
    spec_as_str(spec_opt_get(spec_opt_at(spec_get(j, "data"@), 0), "id"@))
}

/// The identifier the first hit of an Apple ISRC filter lookup carries:
/// the `id` of the first element under `data`.
pub open spec fn spec_apple_isrc_hit(j: Json) -> Option<Seq<char>> {
    spec_as_str(spec_opt_get(spec_opt_at(spec_get(j, "data"@), 0), "id"@))
}

/// The identifier the top-ranked hit of an Apple free-text song search
/// carries: the `id` of the first element under `results.songs.data`.
pub open spec fn spec_apple_text_hit(j: Json) -> Option<Seq<char>> {
    spec_as_str(
        spec_opt_get(
            spec_opt_at(
                spec_opt_get(spec_opt_get(spec_get(j, "results"@), "songs"@), "data"@),
                0,
            ),
            "id"@,
        ),
    )
}

/// The tracks and next-page cursor of an Apple track-listing body, or
/// nothing where the body is not JSON: an unparsable listing fails the
/// fetch, while any missing field inside a parsed one degrades to its
/// default.
pub fn apple_parse_tracks(body: &str) -> (r: Option<(Vec<Track>, Option<String>)>)
    ensures
        match json_parse(body@) {
            Some(j) => r matches Some(page) && page.0.deep_view() == spec_apple_tracks(j)
                && page.1.deep_view() == spec_apple_next(j),
            None => r is None,
        },
{
    match parse_json(body) {
        Some(j) => Some(apple_tracks_page(&j)),
        None => None,
    }
}

/// The playlist headers and next-page cursor of an Apple playlist-listing
/// body, or nothing where the body is not JSON.
pub fn apple_parse_playlists(body: &str) -> (r: Option<(Vec<PlaylistEntry>, Option<String>)>)
    ensures
        match json_parse(body@) {
            Some(j) => r matches Some(page) && page.0.deep_view() == spec_apple_entries(j)
                && page.1.deep_view() == spec_apple_next(j),
            None => r is None,
        },
{
    match parse_json(body) {
        Some(j) => Some(apple_playlists_page(&j)),
        None => None,
    }
}

/// The created playlist's identifier out of an Apple creation response
/// body; nothing where the body is not JSON or carries no identifier.
pub fn apple_created_playlist_id(body: &str) -> (r: Option<String>)
    ensures
        r.deep_view() == match json_parse(body@) {
            Some(j) => spec_apple_created_id(j),
            None => None::<Seq<char>>,
        },
{
    match parse_json(body) {
        Some(j) => opt_str(opt_get(opt_at(opt_get(Some(&j), "data"), 0), "id")),
        None => None,
    }
}

/// The destination identifier an Apple ISRC lookup body yields, if any;
/// a body that is not JSON counts as no match.
pub fn apple_search_isrc_id(body: &str) -> (r: Option<String>)
    ensures
        r.deep_view() == match json_parse(body@) {
            Some(j) => spec_apple_isrc_hit(j),
            None => None::<Seq<char>>,
        },
{
    match parse_json(body) {
        Some(j) => opt_str(opt_get(opt_at(opt_get(Some(&j), "data"), 0), "id")),
        None => None,
    }
}

/// The destination identifier an Apple free-text search body yields, if
/// any; a body that is not JSON counts as no match.
pub fn apple_search_text_id(body: &str) -> (r: Option<String>)
    ensures
        r.deep_view() == match json_parse(body@) {
            Some(j) => spec_apple_text_hit(j),
            None => None::<Seq<char>>,
        },
{
    match parse_json(body) {
        Some(j) => opt_str(
            opt_get(
                opt_at(opt_get(opt_get(opt_get(Some(&j), "results"), "songs"), "data"), 0),
                "id",
            ),
        ),
        None => None,
    }
}

} // verus!
