//! The track resolver: the deterministic strategy that finds a source
//! track in a destination catalog. The recording code, where the track
//! carries one and the destination can filter by it, is authoritative and
//! is searched first; free-text search is the fallback; a track neither
//! search finds is left unmatched.

use vstd::prelude::*;
use crate::model::{MatchMethod, MatchResult, MatchResultView, Provider, Track, TrackView};
use crate::text::{
    isrc_query, spec_isrc_query, spec_structured_query, spec_text_query, structured_query,
    text_query,
};

verus! {

/// Whether a track carries a usable recording code.
pub open spec fn spec_has_isrc(t: TrackView) -> bool {
    match t.isrc {
        Some(code) => code.len() > 0,
        None => false,
    }
}

/// The recording code of a track that carries one.
pub open spec fn spec_isrc_of(t: TrackView) -> Seq<char> {
    t.isrc->0
}

/// Whether this track carries a usable recording code.
pub fn has_isrc(t: &Track) -> (r: bool)
    ensures
        r == spec_has_isrc(t@),
{
    match &t.isrc {
        Some(code) => code.as_str().unicode_len() > 0,
        None => false,
    }
}

/// How a destination catalog is asked for a track.
#[derive(Clone, Copy, Debug, PartialEq, Eq, Structural)]
pub enum SearchMode {
    Isrc,
    Text,
}

/// Whether a provider's catalog can be filtered by recording code.
/// YouTube's search cannot.
pub open spec fn spec_supports_isrc(p: Provider) -> bool {
    !(p is YouTube)
}

/// Whether the provider's catalog can be filtered by recording code.
pub fn supports_isrc(p: Provider) -> (r: bool)
    ensures
        r == spec_supports_isrc(p),
{
    match p {
        Provider::YouTube => false,
        _ => true,
    }
}

/// The mode resolution attempts first: the recording code wherever the
/// track carries one and the destination can filter by it, else text.
pub open spec fn spec_first_mode(p: Provider, t: TrackView) -> SearchMode {
    if spec_supports_isrc(p) && spec_has_isrc(t) {
        SearchMode::Isrc
    } else {
        SearchMode::Text
    }
}

/// The search mode to attempt first for this track against this
/// destination.
pub fn first_search_mode(destination: Provider, t: &Track) -> (r: SearchMode)
    ensures
        r == spec_first_mode(destination, t@),
{
    if supports_isrc(destination) && has_isrc(t) {
        SearchMode::Isrc
    } else {
        SearchMode::Text
    }
}

/// The query text a destination takes for a track in a mode: the raw
/// code for Apple's code filter, Spotify's `isrc:` filter for its code
/// search, Spotify's structured fielded query for its text search, and
/// the plain "{title} {artist}" for the others.
pub open spec fn spec_search_query(p: Provider, t: TrackView, mode: SearchMode) -> Seq<char> {
    match mode {
        SearchMode::Isrc => match p {
            Provider::Spotify => spec_isrc_query(spec_isrc_of(t)),
            _ => spec_isrc_of(t),
        },
        SearchMode::Text => match p {
            Provider::Spotify => spec_structured_query(t.title, t.artist),
            _ => spec_text_query(t.title, t.artist),
        },
    }
}

/// Builds the query text the destination takes for this track in this
/// mode.
pub fn search_query(destination: Provider, t: &Track, mode: SearchMode) -> (r: String)
    requires
        mode is Isrc ==> spec_has_isrc(t@),
    ensures
        r@ == spec_search_query(destination, t@, mode),
{
    match mode {
        SearchMode::Isrc => {
            let code = match &t.isrc {
                Some(code) => code.as_str(),
                None => "",
            };
            match destination {
                Provider::Spotify => isrc_query(code),
                _ => code.to_owned(),
            }
        },
        SearchMode::Text => match destination {
            Provider::Spotify => structured_query(t.title.as_str(), t.artist.as_str()),
            _ => text_query(t.title.as_str(), t.artist.as_str()),
        },
    }
}

/// What follows one search: either the track's match is settled, or the
/// text fallback is still to be tried.
#[derive(Debug)]
pub enum ResolveStep {
    Done(MatchResult),
    SearchText,
}

/// The mathematical value of a `ResolveStep`.
pub enum ResolveStepView {
    Done(MatchResultView),
    SearchText,
}

impl View for ResolveStep {
    type V = ResolveStepView;

    open spec fn view(&self) -> ResolveStepView {
        match self {
            ResolveStep::Done(m) => ResolveStepView::Done(m@),
            ResolveStep::SearchText => ResolveStepView::SearchText,
        }
    }
}

/// What one search outcome settles. A hit in code mode is the
/// authoritative match; a miss in code mode defers to the text fallback;
/// text mode settles the track either way, matched or unmatched.
pub open spec fn spec_resolve_step(t: TrackView, mode: SearchMode, found: Option<Seq<char>>)
    -> ResolveStepView {
    match mode {
        SearchMode::Isrc => match found {
            Some(id) => ResolveStepView::Done(
                MatchResultView { source_track: t, destination_id: Some(id), method: MatchMethod::Isrc },
            ),
            None => ResolveStepView::SearchText,
        },
        SearchMode::Text => match found {
            Some(id) => ResolveStepView::Done(
                MatchResultView {
                    source_track: t,
                    destination_id: Some(id),
                    method: MatchMethod::TitleArtistSearch,
                },
            ),
            None => ResolveStepView::Done(
                MatchResultView { source_track: t, destination_id: None, method: MatchMethod::Unmatched },
            ),
        },
    }
}

/// Settles a track after one search in the given mode returned `found`.
pub fn resolve_step(t: &Track, mode: SearchMode, found: Option<String>) -> (r: ResolveStep)
    ensures
        r@ == spec_resolve_step(t@, mode, found.deep_view()),
{
    match mode {
        SearchMode::Isrc => match found {
            Some(id) => ResolveStep::Done(
                MatchResult {
                    source_track: t.clone(),
                    destination_id: Some(id),
                    method: MatchMethod::Isrc,
                },
            ),
            None => ResolveStep::SearchText,
        },
        SearchMode::Text => match found {
            Some(id) => ResolveStep::Done(
                MatchResult {
                    source_track: t.clone(),
                    destination_id: Some(id),
                    method: MatchMethod::TitleArtistSearch,
                },
            ),
            None => ResolveStep::Done(
                MatchResult {
                    source_track: t.clone(),
                    destination_id: None,
                    method: MatchMethod::Unmatched,
                },
            ),
        },
    }
}

/// The unmatched result recorded for a track whose resolution failed
/// outright — a network fault or a provider error; the failure settles
/// this track only, never the transfer.
pub fn unmatched_result(t: &Track) -> (r: MatchResult)
    ensures
        r@ == (MatchResultView {
            source_track: t@,
            destination_id: None,
            method: MatchMethod::Unmatched,
        }),
{
    MatchResult { source_track: t.clone(), destination_id: None, method: MatchMethod::Unmatched }
}

/// The match the whole two-step strategy produces from a track, given
/// which mode runs first and what each search would return.
pub open spec fn spec_resolution(
    t: TrackView,
    first: SearchMode,
    isrc_found: Option<Seq<char>>,
    text_found: Option<Seq<char>>,
) -> MatchResultView {
    if first is Isrc && isrc_found is Some {
        MatchResultView { source_track: t, destination_id: isrc_found, method: MatchMethod::Isrc }
    } else if text_found is Some {
        MatchResultView {
            source_track: t,
            destination_id: text_found,
            method: MatchMethod::TitleArtistSearch,
        }
    } else {
        MatchResultView { source_track: t, destination_id: None, method: MatchMethod::Unmatched }
    }
}

/// Stepping through the searches one outcome at a time — the first mode,
/// then the text fallback where a code search found nothing — produces
/// exactly the match `spec_resolution` describes, and that match is well
/// formed.
pub proof fn lemma_steps_compose(
    t: TrackView,
    first: SearchMode,
    isrc_found: Option<Seq<char>>,
    text_found: Option<Seq<char>>,
)
    ensures
        ({
            let settled = spec_resolution(t, first, isrc_found, text_found);
            &&& settled.wf()
            &&& settled.source_track == t
            &&& match spec_resolve_step(
                t,
                first,
                if first is Isrc {
                    isrc_found
                } else {
                    text_found
                },
            ) {
                ResolveStepView::Done(m) => m == settled,
                ResolveStepView::SearchText => spec_resolve_step(t, SearchMode::Text, text_found)
                    == ResolveStepView::Done(settled),
            }
        }),
{
}

/// A track with a non-empty recording code is searched by that code
/// before any text search: its first mode is the code mode wherever the
/// destination can filter by code, and a code hit settles the match with
/// the code method, whatever a text search would have returned.
pub proof fn lemma_isrc_first(
    p: Provider,
    t: TrackView,
    id: Seq<char>,
    text_found: Option<Seq<char>>,
)
    requires
        spec_has_isrc(t),
        spec_supports_isrc(p),
    ensures
        spec_first_mode(p, t) == SearchMode::Isrc,
        spec_resolution(t, spec_first_mode(p, t), Some(id), text_found).method
            == MatchMethod::Isrc,
        spec_resolution(t, spec_first_mode(p, t), Some(id), text_found).destination_id
            == Some(id),
{
}

/// Resolving the same source track twice within one run, the provider
/// catalog unchanged — the same searches returning the same outcomes —
/// yields the same destination identifier and method.
pub proof fn lemma_resolution_idempotent(
    t1: TrackView,
    t2: TrackView,
    first1: SearchMode,
    first2: SearchMode,
    isrc1: Option<Seq<char>>,
    isrc2: Option<Seq<char>>,
    text1: Option<Seq<char>>,
    text2: Option<Seq<char>>,
)
    requires
        t1 == t2,
        first1 == first2,
        isrc1 == isrc2,
        text1 == text2,
    ensures
        spec_resolution(t1, first1, isrc1, text1) == spec_resolution(t2, first2, isrc2, text2),
{
}

} // verus!
