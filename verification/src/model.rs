//! The canonical data model shared by every provider adapter: providers,
//! tracks, playlists, match results, and the transfer error taxonomy.

use vstd::prelude::*;

verus! {

/// One of the music services a playlist can be read from or written to.
#[derive(Clone, Copy, Debug, PartialEq, Eq, Structural)]
pub enum Provider {
    Apple,
    Spotify,
    YouTube,
}

/// A single recording, normalized out of a provider's native shape.
/// `isrc` is the International Standard Recording Code; when present it
/// identifies the recording globally and is authoritative for matching.
#[derive(Debug)]
pub struct Track {
    pub title: String,
    pub artist: String,
    pub isrc: Option<String>,
}

/// The mathematical value of a `Track`: its text fields as character
/// sequences.
pub struct TrackView {
    pub title: Seq<char>,
    pub artist: Seq<char>,
    pub isrc: Option<Seq<char>>,
}

impl View for Track {
    type V = TrackView;

    open spec fn view(&self) -> TrackView {
        TrackView {
            title: self.title@,
            artist: self.artist@,
            isrc: match self.isrc {
                Some(s) => Some(s@),
                None => None,
            },
        }
    }
}

impl DeepView for Track {
    type V = TrackView;

    open spec fn deep_view(&self) -> TrackView {
        self.view()
    }
}

impl Clone for Track {
    /// Cloning keeps every field.
    fn clone(&self) -> (r: Track)
        ensures
            r == *self,
    {
        Track {
            title: self.title.clone(),
            artist: self.artist.clone(),
            isrc: match &self.isrc {
                Some(s) => Some(s.clone()),
                None => None,
            },
        }
    }
}

/// A playlist in the canonical model. `track_count` comes from provider
/// metadata when the provider reports one, else it is the number of
/// tracks fetched; it may exceed `tracks.len()` only while pages are
/// still missing.
#[derive(Debug)]
pub struct PlaylistItem {
    pub id: String,
    pub name: String,
    pub cover: String,
    pub track_count: usize,
    pub tracks: Vec<Track>,
}

/// The mathematical value of a `PlaylistItem`.
pub struct PlaylistItemView {
    pub id: Seq<char>,
    pub name: Seq<char>,
    pub cover: Seq<char>,
    pub track_count: int,
    pub tracks: Seq<TrackView>,
}

impl View for PlaylistItem {
    type V = PlaylistItemView;

    open spec fn view(&self) -> PlaylistItemView {
        PlaylistItemView {
            id: self.id@,
            name: self.name@,
            cover: self.cover@,
            track_count: self.track_count as int,
            tracks: self.tracks.deep_view(),
        }
    }
}

/// A playlist as a provider listing page describes it, before its
/// tracks have been fetched: the header an adapter extracts from one
/// listing entry.
#[derive(Debug)]
pub struct PlaylistEntry {
    pub id: String,
    pub name: String,
    pub cover: String,
    /// The track total the provider's metadata reports, where it
    /// reports one.
    pub meta_total: Option<u64>,
    /// The provider-relative URL of the entry's track listing, where
    /// the entry carries one.
    pub tracks_href: Option<String>,
}

/// The mathematical value of a `PlaylistEntry`.
pub struct PlaylistEntryView {
    pub id: Seq<char>,
    pub name: Seq<char>,
    pub cover: Seq<char>,
    pub meta_total: Option<u64>,
    pub tracks_href: Option<Seq<char>>,
}

impl View for PlaylistEntry {
    type V = PlaylistEntryView;

    open spec fn view(&self) -> PlaylistEntryView {
        PlaylistEntryView {
            id: self.id@,
            name: self.name@,
            cover: self.cover@,
            meta_total: self.meta_total,
            tracks_href: match self.tracks_href {
                Some(s) => Some(s@),
                None => None,
            },
        }
    }
}

impl DeepView for PlaylistEntry {
    type V = PlaylistEntryView;

    open spec fn deep_view(&self) -> PlaylistEntryView {
        self.view()
    }
}

/// How a match was found: by the authoritative recording code, by the
/// heuristic text search, or not at all.
#[derive(Clone, Copy, Debug, PartialEq, Eq, Structural)]
pub enum MatchMethod {
    Isrc,
    TitleArtistSearch,
    Unmatched,
}

/// The outcome of resolving one source track against a destination
/// catalog.
#[derive(Debug)]
pub struct MatchResult {
    pub source_track: Track,
    pub destination_id: Option<String>,
    pub method: MatchMethod,
}

/// The mathematical value of a `MatchResult`.
pub struct MatchResultView {
    pub source_track: TrackView,
    pub destination_id: Option<Seq<char>>,
    pub method: MatchMethod,
}

impl View for MatchResult {
    type V = MatchResultView;

    open spec fn view(&self) -> MatchResultView {
        MatchResultView {
            source_track: self.source_track@,
            destination_id: match self.destination_id {
                Some(s) => Some(s@),
                None => None,
            },
            method: self.method,
        }
    }
}

impl DeepView for MatchResult {
    type V = MatchResultView;

    open spec fn deep_view(&self) -> MatchResultView {
        self.view()
    }
}

impl MatchResultView {
    /// A match result is well formed when it carries a destination
    /// identifier exactly where some search succeeded.
    pub open spec fn wf(self) -> bool {
        self.method is Unmatched <==> self.destination_id is None
    }
}

impl Clone for MatchResult {
    /// Cloning keeps every field.
    fn clone(&self) -> (r: MatchResult)
        ensures
            r == *self,
    {
        MatchResult {
            source_track: self.source_track.clone(),
            destination_id: match &self.destination_id {
                Some(s) => Some(s.clone()),
                None => None,
            },
            method: self.method,
        }
    }
}

/// What one finished transfer produced: the created destination
/// playlist, the successful matches in source order, and how many source
/// tracks could not be carried over.
#[derive(Debug)]
pub struct TransferReport {
    pub destination_playlist_id: String,
    pub matched: Vec<MatchResult>,
    pub unmatched_count: usize,
}

/// Why a transfer or a fetch failed as a whole.
#[derive(Debug)]
pub enum TransferError {
    /// No credential is held for the provider.
    MissingCredential(Provider),
    /// The destination playlist could not be created; the provider's
    /// raw error body is kept for diagnostics.
    CreateFailed(String),
}

/// The provider's display name.
pub open spec fn spec_provider_name(p: Provider) -> Seq<char> {
    match p {
        Provider::Apple => "apple"@,
        Provider::Spotify => "spotify"@,
        Provider::YouTube => "youtube"@,
    }
}

impl Provider {
    /// The provider's display name.
    pub fn name(&self) -> (r: &'static str)
        ensures
            r@ == spec_provider_name(*self),
    {
        match self {
            Provider::Apple => "apple",
            Provider::Spotify => "spotify",
            Provider::YouTube => "youtube",
        }
    }
}

/// The line that describes a transfer failure to the caller.
pub open spec fn spec_error_message(e: TransferError) -> Seq<char> {
    match e {
        TransferError::MissingCredential(p) => "not authenticated for "@ + spec_provider_name(p),
        TransferError::CreateFailed(body) => "create playlist failed: "@ + body@,
    }
}

impl TransferError {
    /// A line describing the failure, for the caller to surface.
    pub fn message(&self) -> (r: String)
        ensures
            r@ == spec_error_message(*self),
    {
        match self {
            TransferError::MissingCredential(p) => {
                let mut out = String::new();
                out.append("not authenticated for ");
                out.append(p.name());
                out
            },
            TransferError::CreateFailed(body) => {
                let mut out = String::new();
                out.append("create playlist failed: ");
                out.append(body.as_str());
                out
            },
        }
    }
}

/// Hands the credential through where one is held, and names the
/// provider in the error where none is; every provider call starts
/// here.
pub fn require_credential(credential: Option<String>, provider: Provider) -> (r: Result<
    String,
    TransferError,
>)
    ensures
        match credential {
            Some(t) => r == Ok::<String, TransferError>(t),
            None => r == Err::<String, TransferError>(TransferError::MissingCredential(provider)),
        },
{
    match credential {
        Some(t) => Ok(t),
        None => Err(TransferError::MissingCredential(provider)),
    }
}

/// Whether an HTTP status code reports success.
pub fn is_success_status(status: u16) -> (r: bool)
    ensures
        r == (200 <= status < 300),
{
    200 <= status && status < 300
}

/// Whether a failed provider call should be retried after refreshing the
/// credential: exactly once, and only for an authentication-expired
/// response.
pub fn should_refresh_and_retry(status: u16, already_retried: bool) -> (r: bool)
    ensures
        r == (status == 401 && !already_retried),
{
    status == 401 && !already_retried
}

} // verus!
