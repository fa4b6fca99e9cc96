//! The playlist fetcher's assembly step: one listing entry plus the
//! outcome of fetching its tracks becomes one canonical playlist. A
//! failed track fetch degrades that one playlist to an empty track list
//! and flags it — it neither sinks the listing nor fabricates a count.

use vstd::prelude::*;
use crate::model::{PlaylistEntry, PlaylistItem, Track};

verus! {

/// The track count a playlist reports: the total the provider's metadata
/// named where it named one that fits, else the number of tracks
/// fetched.
pub open spec fn spec_track_count(meta_total: Option<u64>, fetched: int) -> int {
    match meta_total {
        Some(m) => if m <= usize::MAX {
            m as int
        } else {
            fetched
        },
        None => fetched,
    }
}

/// Joins one listing entry with the outcome of fetching its tracks. A
/// fetch failure degrades to an empty track list and raises the flag;
/// the count stays honest: provider metadata where present, else exactly
/// what was fetched.
pub fn assemble_playlist(entry: PlaylistEntry, tracks: Option<Vec<Track>>) -> (r: (
    PlaylistItem,
    bool,
))
    ensures
        r.0@.id == entry@.id,
        r.0@.name == entry@.name,
        r.0@.cover == entry@.cover,
        r.1 == (tracks is None),
        match tracks {
            Some(ts) => r.0@.tracks == ts.deep_view() && r.0@.track_count == spec_track_count(
                entry@.meta_total,
                ts@.len() as int,
            ),
            None => r.0@.tracks == Seq::<crate::model::TrackView>::empty() && r.0@.track_count
                == spec_track_count(entry@.meta_total, 0),
        },
{
    let (tracks, flagged): (Vec<Track>, bool) = match tracks {
        Some(ts) => (ts, false),
        None => (Vec::new(), true),
    };
    proof {
        if flagged {
            assert(tracks.deep_view() =~= Seq::<crate::model::TrackView>::empty());
        }
    }
    let track_count: usize = match entry.meta_total {
        Some(m) => {
            if m <= usize::MAX as u64 {
                m as usize
            } else {
                tracks.len()
            }
        },
        None => tracks.len(),
    };
    let item = PlaylistItem {
        id: entry.id,
        name: entry.name,
        cover: entry.cover,
        track_count,
        tracks,
    };
    (item, flagged)
}

} // verus!
