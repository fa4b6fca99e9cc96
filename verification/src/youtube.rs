//! The YouTube Music catalog adapter: turns the provider's response
//! bodies into the canonical model. Listing responses carry their entries
//! under `items` and page with a `nextPageToken`; the artist is the
//! owning channel's title, with the auto-generated " - Topic" suffix
//! stripped; YouTube reports no recording codes.

use vstd::prelude::*;
use crate::json::{
    Json, arr_under, json_parse, opt_at, opt_get, opt_str, parse_json, spec_arr_under,
    spec_as_str, spec_get, spec_opt_at, spec_opt_get, spec_str_or_empty, str_or_empty,
};
use crate::model::{PlaylistEntry, PlaylistEntryView, Track, TrackView};
use crate::text::{spec_strip_topic_suffix, strip_topic_suffix};

verus! {

/// The track one entry of a YouTube playlist-item listing describes:
/// the video title, and the owning channel's title as the artist, with
/// the auto-generated channel suffix stripped. No recording code.
pub open spec fn spec_youtube_track(j: Json) -> TrackView {
    let snippet = spec_get(j, "snippet"@);
    TrackView {
        title: spec_str_or_empty(spec_opt_get(snippet, "title"@)),
        artist: spec_strip_topic_suffix(
            spec_str_or_empty(spec_opt_get(snippet, "videoOwnerChannelTitle"@)),
        ),
        isrc: None,
    }
}

/// Extracts one track from one entry of a YouTube playlist-item listing.
pub fn youtube_track(j: &Json) -> (r: Track)
    ensures
        r@ == spec_youtube_track(*j),
{
    let snippet = opt_get(Some(j), "snippet");
    let title = str_or_empty(opt_get(snippet, "title"));
    let channel = str_or_empty(opt_get(snippet, "videoOwnerChannelTitle"));
    let artist = strip_topic_suffix(channel.as_str());
    Track { title, artist, isrc: None }
}

/// The tracks of one YouTube playlist-item page.
pub open spec fn spec_youtube_tracks(j: Json) -> Seq<TrackView> {
    spec_arr_under(j, "items"@).map_values(|t: Json| spec_youtube_track(t))
}

/// The token of the next page of a YouTube listing, where one is left.
pub open spec fn spec_youtube_next(j: Json) -> Option<Seq<char>> {
    spec_as_str(spec_get(j, "nextPageToken"@))
}

/// Extracts the tracks and the next-page token of one YouTube
/// playlist-item page.
pub fn youtube_tracks_page(j: &Json) -> (r: (Vec<Track>, Option<String>))
    ensures
        r.0.deep_view() == spec_youtube_tracks(*j),
        r.1.deep_view() == spec_youtube_next(*j),
{
    let next = opt_str(opt_get(Some(j), "nextPageToken"));
    let mut out: Vec<Track> = Vec::new();
    let ghost f = |t: Json| spec_youtube_track(t);
    match arr_under(j, "items") {
        Some(items) => {
            let n = items.len();
            let mut i: usize = 0;
            while i < n
                invariant
                    n == items@.len(),
                    i <= n,
                    out@.len() == i,
                    forall|k: int|
                        0 <= k < i ==> out@[k]@ == spec_youtube_track(#[trigger] items@[k]),
                decreases n - i,
            {
                let t = youtube_track(&items[i]);
                out.push(t);
                i += 1;
            }
            proof {
                assert forall|k: int| 0 <= k < n implies out.deep_view()[k] == items@.map_values(
                    f,
                )[k] by {
                    assert(out.deep_view()[k] == out@[k]@);
                    assert(items@.map_values(f)[k] == f(items@[k]));
                }
                assert(out.deep_view() =~= items@.map_values(f));
            }
            (out, next)
        },
        None => {
            proof {
                assert(out.deep_view() =~= spec_arr_under(*j, "items"@).map_values(f));
            }
            (out, next)
        },
    }
}

/// The playlist header one entry of a YouTube playlist listing
/// describes: identifier, the snippet's title, and the medium thumbnail
/// as the cover. YouTube's listing reports no track total.
pub open spec fn spec_youtube_entry(j: Json) -> PlaylistEntryView {
    let snippet = spec_get(j, "snippet"@);
    PlaylistEntryView {
        id: spec_str_or_empty(spec_get(j, "id"@)),
        name: spec_str_or_empty(spec_opt_get(snippet, "title"@)),
        cover: spec_str_or_empty(
            spec_opt_get(
                spec_opt_get(spec_opt_get(snippet, "thumbnails"@), "medium"@),
                "url"@,
            ),
        ),
        meta_total: None,
        tracks_href: None,
    }
}

/// Extracts one playlist header from one entry of a YouTube playlist
/// listing.
pub fn youtube_entry(j: &Json) -> (r: PlaylistEntry)
    ensures
        r@ == spec_youtube_entry(*j),
{
    let snippet = opt_get(Some(j), "snippet");
    let id = str_or_empty(opt_get(Some(j), "id"));
    let name = str_or_empty(opt_get(snippet, "title"));
    let cover = str_or_empty(opt_get(opt_get(opt_get(snippet, "thumbnails"), "medium"), "url"));
    PlaylistEntry { id, name, cover, meta_total: None, tracks_href: None }
}

/// The playlist headers of one YouTube playlist-listing page.
pub open spec fn spec_youtube_entries(j: Json) -> Seq<PlaylistEntryView> {
    spec_arr_under(j, "items"@).map_values(|e: Json| spec_youtube_entry(e))
}

/// Extracts the playlist headers and the next-page token of one YouTube
/// playlist-listing page.
pub fn youtube_playlists_page(j: &Json) -> (r: (Vec<PlaylistEntry>, Option<String>))
    ensures
        r.0.deep_view() == spec_youtube_entries(*j),
        r.1.deep_view() == spec_youtube_next(*j),
{
    let next = opt_str(opt_get(Some(j), "nextPageToken"));
    let mut out: Vec<PlaylistEntry> = Vec::new();
    let ghost f = |e: Json| spec_youtube_entry(e);
    match arr_under(j, "items") {
        Some(items) => {
            let n = items.len();
            let mut i: usize = 0;
            while i < n
                invariant
                    n == items@.len(),
                    i <= n,
                    out@.len() == i,
                    forall|k: int|
                        0 <= k < i ==> out@[k]@ == spec_youtube_entry(#[trigger] items@[k]),
                decreases n - i,
            {
                let e = youtube_entry(&items[i]);
                out.push(e);
                i += 1;
            }
            proof {
                assert forall|k: int| 0 <= k < n implies out.deep_view()[k] == items@.map_values(
                    f,
                )[k] by {
                    assert(out.deep_view()[k] == out@[k]@);
                    assert(items@.map_values(f)[k] == f(items@[k]));
                }
                assert(out.deep_view() =~= items@.map_values(f));
            }
            (out, next)
        },
        None => {
            proof {
                assert(out.deep_view() =~= spec_arr_under(*j, "items"@).map_values(f));
            }
            (out, next)
        },
    }
}

/// The identifier a YouTube creation response carries at its top level.
pub open spec fn spec_youtube_top_id(j: Json) -> Option<Seq<char>> {
    spec_as_str(spec_get(j, "id"@))
}

/// The video identifier the top-ranked hit of a YouTube search carries:
/// `id.videoId` of the first element under `items`.
pub open spec fn spec_youtube_hit(j: Json) -> Option<Seq<char>> {
    spec_as_str(
        spec_opt_get(spec_opt_get(spec_opt_at(spec_get(j, "items"@), 0), "id"@), "videoId"@),
    )
}

/// The tracks and next-page token of a YouTube playlist-item body, or
/// nothing where the body is not JSON: an unparsable listing fails the
/// fetch, while any missing field inside a parsed one degrades to its
/// default.
pub fn youtube_parse_tracks(body: &str) -> (r: Option<(Vec<Track>, Option<String>)>)
    ensures
        match json_parse(body@) {
            Some(j) => r matches Some(page) && page.0.deep_view() == spec_youtube_tracks(j)
                && page.1.deep_view() == spec_youtube_next(j),
            None => r is None,
        },
{
    match parse_json(body) {
        Some(j) => Some(youtube_tracks_page(&j)),
        None => None,
    }
}

/// The playlist headers and next-page token of a YouTube
/// playlist-listing body, or nothing where the body is not JSON.
pub fn youtube_parse_playlists(body: &str) -> (r: Option<(Vec<PlaylistEntry>, Option<String>)>)
    ensures
        match json_parse(body@) {
            Some(j) => r matches Some(page) && page.0.deep_view() == spec_youtube_entries(j)
                && page.1.deep_view() == spec_youtube_next(j),
            None => r is None,
        },
{
    match parse_json(body) {
        Some(j) => Some(youtube_playlists_page(&j)),
        None => None,
    }
}

/// The created playlist's identifier out of a YouTube creation response
/// body; nothing where the body is not JSON or carries no identifier.
pub fn youtube_created_playlist_id(body: &str) -> (r: Option<String>)
    ensures
        r.deep_view() == match json_parse(body@) {
            Some(j) => spec_youtube_top_id(j),
            None => None::<Seq<char>>,
        },
{
    match parse_json(body) {
        Some(j) => opt_str(opt_get(Some(&j), "id")),
        None => None,
    }
}

/// The destination video identifier a YouTube search body yields, if
/// any; a body that is not JSON counts as no match.
pub fn youtube_search_video_id(body: &str) -> (r: Option<String>)
    ensures
        r.deep_view() == match json_parse(body@) {
            Some(j) => spec_youtube_hit(j),
            None => None::<Seq<char>>,
        },
{
    match parse_json(body) {
        Some(j) => opt_str(
            opt_get(opt_get(opt_at(opt_get(Some(&j), "items"), 0), "id"), "videoId"),
        ),
        None => None,
    }
}

} // verus!
